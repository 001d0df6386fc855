use vstd::prelude::*;
use crate::key::{MetricKey, KEY_COUNT, key_index};

verus! {

/// Number of finite histogram bucket bounds.
pub const BOUND_COUNT: usize = 11;

/// Number of histogram buckets: one per bound, and one past the last bound.
pub const BUCKET_COUNT: usize = 12;

/// Number of quantile levels that a summary reports.
pub const LEVEL_COUNT: usize = 7;

/// Upper bound (inclusive, microseconds) of finite bucket `i`.
pub open spec fn bound(i: int) -> u64 {
    if i == 0 { 250 }
    else if i == 1 { 500 }
    else if i == 2 { 1000 }
    else if i == 3 { 3000 }
    else if i == 4 { 5000 }
    else if i == 5 { 10000 }
    else if i == 6 { 25000 }
    else if i == 7 { 50000 }
    else if i == 8 { 100000 }
    else if i == 9 { 300000 }
    else { 500000 }
}

/// Quantile level `i`, in thousandths.
pub open spec fn level(i: int) -> u64 {
    if i == 0 { 500 }
    else if i == 1 { 600 }
    else if i == 2 { 700 }
    else if i == 3 { 800 }
    else if i == 4 { 900 }
    else if i == 5 { 950 }
    else { 1000 }
}

pub fn bound_at(i: usize) -> (r: u64)
    requires
        i < BOUND_COUNT,
    ensures
        r == bound(i as int),
{
    if i == 0 { 250 }
    else if i == 1 { 500 }
    else if i == 2 { 1000 }
    else if i == 3 { 3000 }
    else if i == 4 { 5000 }
    else if i == 5 { 10000 }
    else if i == 6 { 25000 }
    else if i == 7 { 50000 }
    else if i == 8 { 100000 }
    else if i == 9 { 300000 }
    else { 500000 }
}

pub fn level_at(i: usize) -> (r: u64)
    requires
        i < LEVEL_COUNT,
    ensures
        r == level(i as int),
{
    if i == 0 { 500 }
    else if i == 1 { 600 }
    else if i == 2 { 700 }
    else if i == 3 { 800 }
    else if i == 4 { 900 }
    else if i == 5 { 950 }
    else { 1000 }
}

/// The bucket that an observation falls into: the first whose bound is not below it.
pub open spec fn bucket_from(v: u64, i: nat) -> nat
    decreases BOUND_COUNT - i,
{
    if i >= BOUND_COUNT {
        BOUND_COUNT as nat
    } else if v <= bound(i as int) {
        i
    } else {
        bucket_from(v, i + 1)
    }
}

pub open spec fn bucket_of(v: u64) -> nat {
    bucket_from(v, 0)
}

pub open spec fn sat_add(a: u64, b: u64) -> u64 {
    if a + b > u64::MAX { u64::MAX } else { (a + b) as u64 }
}

/// What a histogram holds: a count per bucket and the sum of observations.
pub struct HistogramView {
    pub counts: Seq<u64>,
    pub sum: u64,
}

/// A histogram with the fixed latency bucket layout.
#[derive(Debug)]
pub struct HistogramValue {
    pub counts: Vec<u64>,
    pub sum: u64,
}

impl View for HistogramValue {
    type V = HistogramView;

    open spec fn view(&self) -> HistogramView {
        HistogramView { counts: self.counts@, sum: self.sum }
    }
}

pub open spec fn empty_histogram() -> HistogramView {
    HistogramView { counts: Seq::new(BUCKET_COUNT as nat, |i: int| 0u64), sum: 0 }
}

/// A histogram after observing `v` (saturating at the largest `u64`).
pub open spec fn observe(h: HistogramView, v: u64) -> HistogramView {
    let b = bucket_of(v) as int;
    HistogramView { counts: h.counts.update(b, sat_add(h.counts[b], 1)), sum: sat_add(h.sum, v) }
}

/// A histogram after observing each of `vs`, first to last.
pub open spec fn observe_all(h: HistogramView, vs: Seq<u64>) -> HistogramView
    decreases vs.len(),
{
    if vs.len() == 0 {
        h
    } else {
        observe(observe_all(h, vs.drop_last()), vs.last())
    }
}

/// Sum of the first `n` counts.
pub open spec fn prefix(c: Seq<u64>, n: int) -> int
    decreases n,
{
    if n <= 0 {
        0
    } else {
        prefix(c, n - 1) + c[n - 1]
    }
}

pub open spec fn total(h: HistogramView) -> int {
    prefix(h.counts, BUCKET_COUNT as int)
}

/// How many observations lie at or below the quantile `q` (thousandths), rounded up.
pub open spec fn rank(q: u64, n: int) -> int {
    (q * n + 999) / 1000
}

/// Bound of the first bucket at or after `i` whose running count reaches `r`;
/// past the finite buckets, the last finite bound.
pub open spec fn pick(c: Seq<u64>, r: int, i: nat) -> u64
    decreases BOUND_COUNT - i,
{
    if i >= BOUND_COUNT {
        bound(BOUND_COUNT - 1)
    } else if prefix(c, i + 1 as int) >= r {
        bound(i as int)
    } else {
        pick(c, r, i + 1)
    }
}

/// Estimate of quantile `q` of a histogram; 0 when it is empty.
pub open spec fn quantile(h: HistogramView, q: u64) -> u64 {
    if total(h) == 0 {
        0
    } else {
        pick(h.counts, rank(q, total(h)), 0)
    }
}

/// What a summary holds: a value per quantile level, and the histogram's sum and count.
pub struct SummaryView {
    pub values: Seq<u64>,
    pub sum: u64,
    pub count: int,
}

/// Quantile estimates derived from a histogram.
#[derive(Debug)]
pub struct SummaryValue {
    pub values: Vec<u64>,
    pub sum: u64,
    pub count: u128,
}

impl View for SummaryValue {
    type V = SummaryView;

    open spec fn view(&self) -> SummaryView {
        SummaryView { values: self.values@, sum: self.sum, count: self.count as int }
    }
}

/// The summary that a histogram determines.
pub open spec fn summary_of(h: HistogramView) -> SummaryView {
    SummaryView {
        values: Seq::new(LEVEL_COUNT as nat, |i: int| quantile(h, level(i))),
        sum: h.sum,
        count: total(h),
    }
}

pub open spec fn histogram_wf(h: HistogramView) -> bool {
    h.counts.len() == BUCKET_COUNT
}

impl HistogramValue {
    pub fn empty() -> (r: HistogramValue)
        ensures
            r@ == empty_histogram(),
            histogram_wf(r@),
    {
        let mut counts: Vec<u64> = Vec::new();
        let mut i: usize = 0;
        while i < BUCKET_COUNT
            invariant
                i <= BUCKET_COUNT,
                counts@ == Seq::new(i as nat, |j: int| 0u64),
            decreases BUCKET_COUNT - i,
        {
            counts.push(0);
            i = i + 1;
        }
        HistogramValue { counts, sum: 0 }
    }

    pub fn copy(&self) -> (r: HistogramValue)
        ensures
            r@ == self@,
    {
        let mut counts: Vec<u64> = Vec::new();
        let mut i: usize = 0;
        while i < self.counts.len()
            invariant
                i <= self.counts@.len(),
                counts@ == self.counts@.subrange(0, i as int),
            decreases self.counts@.len() - i,
        {
            counts.push(self.counts[i]);
            i = i + 1;
        }
        assert(counts@ == self.counts@);
        HistogramValue { counts, sum: self.sum }
    }

    /// Index of the bucket that `v` falls into.
    pub fn bucket(v: u64) -> (r: usize)
        ensures
            r as nat == bucket_of(v),
            r < BUCKET_COUNT,
    {
        let mut i: usize = 0;
        while i < BOUND_COUNT
            invariant
                i <= BOUND_COUNT,
                bucket_from(v, 0) == bucket_from(v, i as nat),
            decreases BOUND_COUNT - i,
        {
            if v <= bound_at(i) {
                return i;
            }
            i = i + 1;
        }
        BOUND_COUNT
    }

    pub fn observe(&mut self, v: u64)
        requires
            histogram_wf(old(self)@),
        ensures
            final(self)@ == observe(old(self)@, v),
            histogram_wf(final(self)@),
    {
        let b = Self::bucket(v);
        let c = self.counts[b].saturating_add(1);
        self.counts.set(b, c);
        self.sum = self.sum.saturating_add(v);
    }

    /// Sum of all bucket counts.
    pub fn total(&self) -> (r: u128)
        requires
            histogram_wf(self@),
        ensures
            r as int == total(self@),
            r <= BUCKET_COUNT * u64::MAX,
    {
        let mut acc: u128 = 0;
        let mut i: usize = 0;
        while i < BUCKET_COUNT
            invariant
                i <= BUCKET_COUNT,
                self.counts@.len() == BUCKET_COUNT,
                acc as int == prefix(self.counts@, i as int),
                acc <= i * u64::MAX,
            decreases BUCKET_COUNT - i,
        {
            acc = acc + self.counts[i] as u128;
            i = i + 1;
        }
        acc
    }

    /// Estimate of the quantile `q` (thousandths).
    pub fn quantile(&self, q: u64) -> (r: u64)
        requires
            histogram_wf(self@),
            q <= 1000,
        ensures
            r == quantile(self@, q),
    {
        let n = self.total();
        if n == 0 {
            return 0;
        }
        proof {
            assert(q * n <= 1000 * (BUCKET_COUNT * u64::MAX)) by (nonlinear_arith)
                requires q <= 1000, n <= BUCKET_COUNT * u64::MAX;
        }
        let target: u128 = (q as u128 * n + 999) / 1000;
        assert(quantile(self@, q) == pick(self.counts@, target as int, 0));
        let mut acc: u128 = 0;
        let mut i: usize = 0;
        while i < BOUND_COUNT
            invariant
                i <= BOUND_COUNT,
                self.counts@.len() == BUCKET_COUNT,
                n as int == total(self@),
                target as int == rank(q, total(self@)),
                n > 0,
                acc as int == prefix(self.counts@, i as int),
                acc <= i * u64::MAX,
                pick(self.counts@, target as int, 0) == pick(self.counts@, target as int, i as nat),
            decreases BOUND_COUNT - i,
        {
            acc = acc + self.counts[i] as u128;
            assert(acc as int == prefix(self.counts@, i + 1));
            if acc >= target {
                assert(pick(self.counts@, target as int, i as nat) == bound(i as int));
                return bound_at(i);
            }
            i = i + 1;
        }
        bound_at(BOUND_COUNT - 1)
    }

    /// The summary that this histogram determines.
    pub fn summary(&self) -> (r: SummaryValue)
        requires
            histogram_wf(self@),
        ensures
            r@ == summary_of(self@),
    {
        let mut values: Vec<u64> = Vec::new();
        let mut i: usize = 0;
        while i < LEVEL_COUNT
            invariant
                i <= LEVEL_COUNT,
                histogram_wf(self@),
                values@ == Seq::new(i as nat, |j: int| quantile(self@, level(j))),
            decreases LEVEL_COUNT - i,
        {
            let v = self.quantile(level_at(i));
            values.push(v);
            i = i + 1;
        }
        SummaryValue { values, sum: self.sum, count: self.total() }
    }
}

pub open spec fn histogram_opt_view(o: Option<HistogramValue>) -> Option<HistogramView> {
    match o {
        Some(h) => Some(h@),
        None => None,
    }
}

pub open spec fn summary_opt_view(o: Option<SummaryValue>) -> Option<SummaryView> {
    match o {
        Some(v) => Some(v@),
        None => None,
    }
}

/// A histogram, or an empty one where there is none yet.
pub open spec fn histogram_or_empty(o: Option<HistogramView>) -> HistogramView {
    match o {
        Some(h) => h,
        None => empty_histogram(),
    }
}

/// A summary, or that of an empty histogram where there is none yet.
pub open spec fn summary_or_empty(o: Option<SummaryView>) -> SummaryView {
    match o {
        Some(s) => s,
        None => summary_of(empty_histogram()),
    }
}

/// Running totals of counters, one slot per key.
#[derive(Debug)]
pub struct CounterManager {
    pub data_map: Vec<Option<u64>>,
}

impl View for CounterManager {
    type V = Seq<Option<u64>>;

    open spec fn view(&self) -> Seq<Option<u64>> {
        self.data_map@
    }
}

/// A counter after adding `v`, saturating at the largest `u64`.
pub open spec fn counter_after(o: Option<u64>, v: u64) -> u64 {
    match o {
        Some(c) => sat_add(c, v),
        None => v,
    }
}

impl CounterManager {
    pub open spec fn wf(&self) -> bool {
        self@.len() == KEY_COUNT
    }

    pub fn new() -> (r: CounterManager)
        ensures
            r.wf(),
            forall|i: int| 0 <= i < KEY_COUNT ==> r@[i] is None,
    {
        let mut data_map: Vec<Option<u64>> = Vec::new();
        let mut i: usize = 0;
        while i < KEY_COUNT
            invariant
                i <= KEY_COUNT,
                data_map@.len() == i,
                forall|j: int| 0 <= j < i ==> data_map@[j] is None,
            decreases KEY_COUNT - i,
        {
            data_map.push(None);
            i = i + 1;
        }
        CounterManager { data_map }
    }

    pub fn increment(&mut self, key: MetricKey, v: u64)
        requires
            old(self).wf(),
        ensures
            final(self)@ == old(self)@.update(key_index(key), Some(counter_after(old(self)@[key_index(key)], v))),
    {
        let i = key.index();
        let n = match self.data_map[i] {
            Some(c) => c.saturating_add(v),
            None => v,
        };
        self.data_map.set(i, Some(n));
    }

    pub fn value(&self, key: &MetricKey) -> (r: Option<u64>)
        requires
            self.wf(),
        ensures
            r == self@[key_index(*key)],
    {
        self.data_map[key.index()]
    }

    pub fn copy(&self) -> (r: Vec<Option<u64>>)
        ensures
            r@ == self@,
    {
        let mut out: Vec<Option<u64>> = Vec::new();
        let mut i: usize = 0;
        while i < self.data_map.len()
            invariant
                i <= self@.len(),
                out@ == self@.subrange(0, i as int),
            decreases self@.len() - i,
        {
            out.push(self.data_map[i]);
            i = i + 1;
        }
        assert(out@ == self@);
        out
    }
}

/// Latest values of gauges, one slot per key.
#[derive(Debug)]
pub struct GaugeManager {
    pub data_map: Vec<Option<i64>>,
}

impl View for GaugeManager {
    type V = Seq<Option<i64>>;

    open spec fn view(&self) -> Seq<Option<i64>> {
        self.data_map@
    }
}

impl GaugeManager {
    pub open spec fn wf(&self) -> bool {
        self@.len() == KEY_COUNT
    }

    pub fn new() -> (r: GaugeManager)
        ensures
            r.wf(),
            forall|i: int| 0 <= i < KEY_COUNT ==> r@[i] is None,
    {
        let mut data_map: Vec<Option<i64>> = Vec::new();
        let mut i: usize = 0;
        while i < KEY_COUNT
            invariant
                i <= KEY_COUNT,
                data_map@.len() == i,
                forall|j: int| 0 <= j < i ==> data_map@[j] is None,
            decreases KEY_COUNT - i,
        {
            data_map.push(None);
            i = i + 1;
        }
        GaugeManager { data_map }
    }

    pub fn set(&mut self, key: MetricKey, v: i64)
        requires
            old(self).wf(),
        ensures
            final(self)@ == old(self)@.update(key_index(key), Some(v)),
    {
        self.data_map.set(key.index(), Some(v));
    }

    pub fn value(&self, key: &MetricKey) -> (r: Option<i64>)
        requires
            self.wf(),
        ensures
            r == self@[key_index(*key)],
    {
        self.data_map[key.index()]
    }

    pub fn copy(&self) -> (r: Vec<Option<i64>>)
        ensures
            r@ == self@,
    {
        let mut out: Vec<Option<i64>> = Vec::new();
        let mut i: usize = 0;
        while i < self.data_map.len()
            invariant
                i <= self@.len(),
                out@ == self@.subrange(0, i as int),
            decreases self@.len() - i,
        {
            out.push(self.data_map[i]);
            i = i + 1;
        }
        assert(out@ == self@);
        out
    }
}

/// Histograms, one slot per key.
#[derive(Debug)]
pub struct HistogramManager {
    pub data_map: Vec<Option<HistogramValue>>,
}

impl View for HistogramManager {
    type V = Seq<Option<HistogramView>>;

    open spec fn view(&self) -> Seq<Option<HistogramView>> {
        self.data_map@.map_values(|o: Option<HistogramValue>| histogram_opt_view(o))
    }
}

pub open spec fn histograms_wf(s: Seq<Option<HistogramView>>) -> bool {
    &&& s.len() == KEY_COUNT
    &&& forall|i: int| 0 <= i < s.len() && #[trigger] s[i] is Some ==> histogram_wf(s[i]->0)
}

/// Copies a table of histograms.
pub fn copy_histograms(v: &Vec<Option<HistogramValue>>) -> (r: Vec<Option<HistogramValue>>)
    ensures
        r@.map_values(|o: Option<HistogramValue>| histogram_opt_view(o))
            == v@.map_values(|o: Option<HistogramValue>| histogram_opt_view(o)),
{
    let mut out: Vec<Option<HistogramValue>> = Vec::new();
    let mut i: usize = 0;
    while i < v.len()
        invariant
            i <= v@.len(),
            out@.len() == i,
            forall|j: int| 0 <= j < i ==> histogram_opt_view(#[trigger] out@[j]) == histogram_opt_view(v@[j]),
        decreases v@.len() - i,
    {
        let c = match &v[i] {
            Some(h) => Some(h.copy()),
            None => None,
        };
        out.push(c);
        i = i + 1;
    }
    assert(out@.map_values(|o: Option<HistogramValue>| histogram_opt_view(o))
        == v@.map_values(|o: Option<HistogramValue>| histogram_opt_view(o)));
    out
}

impl HistogramManager {
    pub open spec fn wf(&self) -> bool {
        histograms_wf(self@)
    }

    pub fn new() -> (r: HistogramManager)
        ensures
            r.wf(),
            forall|i: int| 0 <= i < KEY_COUNT ==> r@[i] is None,
    {
        let mut data_map: Vec<Option<HistogramValue>> = Vec::new();
        let mut i: usize = 0;
        while i < KEY_COUNT
            invariant
                i <= KEY_COUNT,
                data_map@.len() == i,
                forall|j: int| 0 <= j < i ==> data_map@[j] is None,
            decreases KEY_COUNT - i,
        {
            data_map.push(None);
            i = i + 1;
        }
        HistogramManager { data_map }
    }

    /// Creates an empty histogram for `key` unless it has one.
    pub fn init(&mut self, key: MetricKey)
        requires
            old(self).wf(),
        ensures
            final(self).wf(),
            final(self)@ == old(self)@.update(key_index(key), Some(histogram_or_empty(old(self)@[key_index(key)]))),
    {
        let i = key.index();
        if self.data_map[i].is_none() {
            self.data_map.set(i, Some(HistogramValue::empty()));
        }
        assert(self@ == old(self)@.update(key_index(key), Some(histogram_or_empty(old(self)@[key_index(key)]))));
    }

    /// Observes `v` for `key`, creating its histogram where there is none.
    pub fn record(&mut self, key: &MetricKey, v: u64)
        requires
            old(self).wf(),
        ensures
            final(self).wf(),
            final(self)@ == old(self)@.update(key_index(*key), Some(observe(histogram_or_empty(old(self)@[key_index(*key)]), v))),
    {
        let i = key.index();
        let slot = self.data_map.remove(i);
        assert(histogram_opt_view(slot) == old(self)@[i as int]);
        let mut h = match slot {
            Some(h) => h,
            None => HistogramValue::empty(),
        };
        h.observe(v);
        self.data_map.insert(i, Some(h));
        assert(self@ =~= old(self)@.update(key_index(*key), Some(observe(histogram_or_empty(old(self)@[key_index(*key)]), v))));
    }

    /// Observes each of `vs` for `key`, first to last; an empty batch changes nothing.
    pub fn record_many(&mut self, key: &MetricKey, vs: &Vec<u64>)
        requires
            old(self).wf(),
        ensures
            final(self).wf(),
            vs@.len() == 0 ==> final(self)@ == old(self)@,
            vs@.len() > 0 ==> final(self)@ == old(self)@.update(key_index(*key), Some(observe_all(histogram_or_empty(old(self)@[key_index(*key)]), vs@))),
    {
        if vs.len() == 0 {
            return;
        }
        let i = key.index();
        let slot = self.data_map.remove(i);
        assert(histogram_opt_view(slot) == old(self)@[i as int]);
        let mut h = match slot {
            Some(h) => h,
            None => HistogramValue::empty(),
        };
        let ghost start = h@;
        let mut j: usize = 0;
        while j < vs.len()
            invariant
                j <= vs@.len(),
                histogram_wf(start),
                histogram_wf(h@),
                h@ == observe_all(start, vs@.subrange(0, j as int)),
            decreases vs@.len() - j,
        {
            proof {
                assert(vs@.subrange(0, j + 1).drop_last() =~= vs@.subrange(0, j as int));
            }
            h.observe(vs[j]);
            j = j + 1;
        }
        assert(vs@.subrange(0, vs@.len() as int) =~= vs@);
        self.data_map.insert(i, Some(h));
        assert(self@ =~= old(self)@.update(key_index(*key), Some(observe_all(histogram_or_empty(old(self)@[key_index(*key)]), vs@))));
    }

    pub fn get_value(&self, key: &MetricKey) -> (r: Option<&HistogramValue>)
        requires
            self.wf(),
        ensures
            r is Some <==> self@[key_index(*key)] is Some,
            r is Some ==> r->0@ == self@[key_index(*key)]->0,
    {
        match &self.data_map[key.index()] {
            Some(h) => Some(h),
            None => None,
        }
    }

    pub fn copy(&self) -> (r: Vec<Option<HistogramValue>>)
        ensures
            r@.map_values(|o: Option<HistogramValue>| histogram_opt_view(o)) == self@,
    {
        copy_histograms(&self.data_map)
    }
}

/// Quantile tables, one slot per key; each is derived from a histogram.
#[derive(Debug)]
pub struct SummaryManager {
    pub data_map: Vec<Option<SummaryValue>>,
}

impl View for SummaryManager {
    type V = Seq<Option<SummaryView>>;

    open spec fn view(&self) -> Seq<Option<SummaryView>> {
        self.data_map@.map_values(|o: Option<SummaryValue>| summary_opt_view(o))
    }
}

pub open spec fn summaries_wf(s: Seq<Option<SummaryView>>) -> bool {
    &&& s.len() == KEY_COUNT
    &&& forall|i: int| 0 <= i < s.len() && #[trigger] s[i] is Some ==> s[i]->0.values.len() == LEVEL_COUNT
}

impl SummaryManager {
    pub open spec fn wf(&self) -> bool {
        summaries_wf(self@)
    }

    pub fn new() -> (r: SummaryManager)
        ensures
            r.wf(),
            forall|i: int| 0 <= i < KEY_COUNT ==> r@[i] is None,
    {
        let mut data_map: Vec<Option<SummaryValue>> = Vec::new();
        let mut i: usize = 0;
        while i < KEY_COUNT
            invariant
                i <= KEY_COUNT,
                data_map@.len() == i,
                forall|j: int| 0 <= j < i ==> data_map@[j] is None,
            decreases KEY_COUNT - i,
        {
            data_map.push(None);
            i = i + 1;
        }
        SummaryManager { data_map }
    }

    /// Gives `key` the summary of an empty histogram unless it has one.
    pub fn init(&mut self, key: MetricKey)
        requires
            old(self).wf(),
        ensures
            final(self).wf(),
            final(self)@ == old(self)@.update(key_index(key), Some(summary_or_empty(old(self)@[key_index(key)]))),
    {
        let i = key.index();
        if self.data_map[i].is_none() {
            let e = HistogramValue::empty();
            self.data_map.set(i, Some(e.summary()));
        }
        assert(self@ =~= old(self)@.update(key_index(key), Some(summary_or_empty(old(self)@[key_index(key)]))));
    }

    /// Replaces the summary of `key` with the one that `h` determines.
    pub fn recalculate_from_histogram(&mut self, key: &MetricKey, h: &HistogramValue)
        requires
            old(self).wf(),
            histogram_wf(h@),
        ensures
            final(self).wf(),
            final(self)@ == old(self)@.update(key_index(*key), Some(summary_of(h@))),
    {
        let i = key.index();
        self.data_map.set(i, Some(h.summary()));
        assert(self@ =~= old(self)@.update(key_index(*key), Some(summary_of(h@))));
    }
}

} // verus!
