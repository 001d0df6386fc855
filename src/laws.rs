use vstd::prelude::*;
use crate::key::{MetricKey, KEY_COUNT, key_index};
use crate::model::{MetricsItem, MetricsRecord, QueryError};
use crate::registry::{HistogramView, SummaryView, summary_of};
use crate::collector::{RegistryView, MetricsManager, apply_all, resummarize, peek_result, merge_round, lemma_peek_err_stays};
use crate::text::{concat, counter_block, gauge_block, histogram_block, summary_block, counter_blocks, gauge_blocks, histogram_blocks, summary_blocks};
use crate::timeline::{minute_due, bounded_push, SnapshotView, MINUTE_MS, LEAST_CAP};

verus! {

/// A counter slot read as a number: absent counts as zero.
pub open spec fn counter_total(o: Option<u64>) -> int {
    match o {
        Some(c) => c as int,
        None => 0,
    }
}

/// What one item adds to the counter of `k`.
pub open spec fn inc_of(it: MetricsItem, k: MetricKey) -> int {
    match it.record {
        MetricsRecord::CounterInc(v) => if it.metrics_type == k { v as int } else { 0 },
        _ => 0,
    }
}

/// Whether one item is an increment of the counter of `k` (1) or not (0).
pub open spec fn touch_of(it: MetricsItem, k: MetricKey) -> int {
    match it.record {
        MetricsRecord::CounterInc(_) => if it.metrics_type == k { 1 } else { 0 },
        _ => 0,
    }
}

/// Sum of `f` over `items`.
pub open spec fn item_sum(items: Seq<MetricsItem>, f: spec_fn(MetricsItem) -> int) -> int
    decreases items.len(),
{
    if items.len() == 0 {
        0
    } else {
        item_sum(items.drop_last(), f) + f(items.last())
    }
}

/// Sum of the increments that `items` make to the counter of `k`.
pub open spec fn increments(items: Seq<MetricsItem>, k: MetricKey) -> int {
    item_sum(items, |it: MetricsItem| inc_of(it, k))
}

/// How many of `items` increment the counter of `k`.
pub open spec fn touches(items: Seq<MetricsItem>, k: MetricKey) -> int {
    item_sum(items, |it: MetricsItem| touch_of(it, k))
}

/// The value that the last gauge update of `k` in `items` sets, if any.
pub open spec fn last_gauge(items: Seq<MetricsItem>, k: MetricKey) -> Option<i64>
    decreases items.len(),
{
    if items.len() == 0 {
        None
    } else {
        match items.last().record {
            MetricsRecord::Gauge(v) => if items.last().metrics_type == k {
                Some(v)
            } else {
                last_gauge(items.drop_last(), k)
            },
            _ => last_gauge(items.drop_last(), k),
        }
    }
}

pub open spec fn registry_wf(r: RegistryView) -> bool {
    &&& r.counters.len() == KEY_COUNT
    &&& r.gauges.len() == KEY_COUNT
    &&& r.histograms.len() == KEY_COUNT
}

proof fn lemma_item_sum_nonneg(items: Seq<MetricsItem>, f: spec_fn(MetricsItem) -> int)
    requires
        forall|it: MetricsItem| #[trigger] f(it) >= 0,
    ensures
        item_sum(items, f) >= 0,
    decreases items.len(),
{
    if items.len() > 0 {
        lemma_item_sum_nonneg(items.drop_last(), f);
    }
}

proof fn lemma_item_sum_remove(s: Seq<MetricsItem>, i: int, f: spec_fn(MetricsItem) -> int)
    requires
        0 <= i < s.len(),
    ensures
        item_sum(s, f) == item_sum(s.remove(i), f) + f(s[i]),
    decreases s.len(),
{
    if i == s.len() - 1 {
        assert(s.remove(i) =~= s.drop_last());
    } else {
        lemma_item_sum_remove(s.drop_last(), i, f);
        assert(s.remove(i).drop_last() =~= s.drop_last().remove(i));
        assert(s.remove(i).last() == s.last());
    }
}

/// A sum over items does not depend on their order.
pub proof fn lemma_item_sum_permutation(s: Seq<MetricsItem>, p: Seq<MetricsItem>, f: spec_fn(MetricsItem) -> int)
    requires
        s.to_multiset() == p.to_multiset(),
    ensures
        item_sum(s, f) == item_sum(p, f),
    decreases p.len(),
{
    broadcast use vstd::seq_lib::group_to_multiset_ensures, vstd::multiset::group_multiset_axioms;

    if p.len() == 0 {
        vstd::seq_lib::to_multiset_len(s);
        vstd::seq_lib::to_multiset_len(p);
        assert(s.len() == 0);
    } else {
        let a = p.last();
        assert(p =~= p.drop_last().push(a));
        assert(p.to_multiset().count(a) > 0);
        assert(s.contains(a));
        let i = choose|i: int| 0 <= i < s.len() && s[i] == a;
        assert(s.remove(i).to_multiset() =~= p.drop_last().to_multiset());
        lemma_item_sum_permutation(s.remove(i), p.drop_last(), f);
        lemma_item_sum_remove(s, i, f);
    }
}

/// Updates keep every table's length.
pub proof fn lemma_apply_all_wf(r: RegistryView, items: Seq<MetricsItem>)
    requires
        registry_wf(r),
    ensures
        registry_wf(apply_all(r, items)),
    decreases items.len(),
{
    if items.len() > 0 {
        lemma_apply_all_wf(r, items.drop_last());
    }
}

/// A counter ends at its start value plus the sum of all increments applied to
/// it, as long as that sum fits in a `u64`; it exists once anything was added.
pub proof fn lemma_counter_is_sum(r: RegistryView, items: Seq<MetricsItem>, k: MetricKey)
    requires
        registry_wf(r),
        counter_total(r.counters[key_index(k)]) + increments(items, k) <= u64::MAX,
    ensures
        counter_total(apply_all(r, items).counters[key_index(k)]) == counter_total(r.counters[key_index(k)]) + increments(items, k),
        apply_all(r, items).counters[key_index(k)] is Some <==> (r.counters[key_index(k)] is Some || touches(items, k) > 0),
    decreases items.len(),
{
    if items.len() > 0 {
        let prefix = items.drop_last();
        lemma_item_sum_nonneg(prefix, |it: MetricsItem| inc_of(it, k));
        lemma_item_sum_nonneg(prefix, |it: MetricsItem| touch_of(it, k));
        lemma_item_sum_nonneg(items, |it: MetricsItem| inc_of(it, k));
        assert(increments(prefix, k) <= increments(items, k));
        lemma_counter_is_sum(r, prefix, k);
        lemma_apply_all_wf(r, prefix);
        if items.last().metrics_type != k {
            assert(key_index(items.last().metrics_type) != key_index(k));
        }
    }
}

/// Applying the same items in another order leaves every counter as it is
/// (while the sums fit in a `u64`).
pub proof fn lemma_counter_order_independent(r: RegistryView, items: Seq<MetricsItem>, p: Seq<MetricsItem>, k: MetricKey)
    requires
        registry_wf(r),
        items.to_multiset() == p.to_multiset(),
        counter_total(r.counters[key_index(k)]) + increments(items, k) <= u64::MAX,
    ensures
        apply_all(r, items).counters[key_index(k)] == apply_all(r, p).counters[key_index(k)],
{
    lemma_item_sum_permutation(items, p, |it: MetricsItem| inc_of(it, k));
    lemma_item_sum_permutation(items, p, |it: MetricsItem| touch_of(it, k));
    lemma_counter_is_sum(r, items, k);
    lemma_counter_is_sum(r, p, k);
}

/// Applying `a` and then `b` is applying `a + b`.
pub proof fn lemma_apply_all_concat(r: RegistryView, a: Seq<MetricsItem>, b: Seq<MetricsItem>)
    ensures
        apply_all(apply_all(r, a), b) == apply_all(r, a + b),
    decreases b.len(),
{
    if b.len() == 0 {
        assert(a + b =~= a);
    } else {
        lemma_apply_all_concat(r, a, b.drop_last());
        assert((a + b).drop_last() =~= a + b.drop_last());
        assert((a + b).last() == b.last());
    }
}

/// The items that a round merges: all of them when every query succeeded, none otherwise.
pub open spec fn round_items(rs: Seq<Option<Result<Vec<MetricsItem>, QueryError>>>) -> Seq<MetricsItem> {
    match peek_result(rs) {
        Ok(items) => items,
        Err(_) => Seq::empty(),
    }
}

/// A round's merge is the application of its items.
pub proof fn lemma_merge_round_is_apply(r: RegistryView, rs: Seq<Option<Result<Vec<MetricsItem>, QueryError>>>)
    ensures
        merge_round(r, rs) == apply_all(r, round_items(rs)),
{
}

/// The tables after each batch in turn (a request's items, or a round's merged items).
pub open spec fn apply_batches(r: RegistryView, bs: Seq<Seq<MetricsItem>>) -> RegistryView
    decreases bs.len(),
{
    if bs.len() == 0 {
        r
    } else {
        apply_all(apply_batches(r, bs.drop_last()), bs.last())
    }
}

/// All the batches' items, in order.
pub open spec fn joined(bs: Seq<Seq<MetricsItem>>) -> Seq<MetricsItem>
    decreases bs.len(),
{
    if bs.len() == 0 {
        Seq::empty()
    } else {
        joined(bs.drop_last()) + bs.last()
    }
}

/// Over any run of record requests and collection rounds, each a batch of items,
/// a counter ends at its start value plus every increment made to it (while
/// that fits in a `u64`).
pub proof fn lemma_counter_over_batches(r: RegistryView, bs: Seq<Seq<MetricsItem>>, k: MetricKey)
    requires
        registry_wf(r),
        counter_total(r.counters[key_index(k)]) + increments(joined(bs), k) <= u64::MAX,
    ensures
        apply_batches(r, bs) == apply_all(r, joined(bs)),
        counter_total(apply_batches(r, bs).counters[key_index(k)]) == counter_total(r.counters[key_index(k)]) + increments(joined(bs), k),
{
    lemma_batches_join(r, bs);
    lemma_counter_is_sum(r, joined(bs), k);
}

proof fn lemma_batches_join(r: RegistryView, bs: Seq<Seq<MetricsItem>>)
    ensures
        apply_batches(r, bs) == apply_all(r, joined(bs)),
    decreases bs.len(),
{
    if bs.len() > 0 {
        lemma_batches_join(r, bs.drop_last());
        lemma_apply_all_concat(r, joined(bs.drop_last()), bs.last());
    }
}

/// A gauge holds the value of the last update to it, or its start value if
/// there was none.
pub proof fn lemma_gauge_last_write_wins(r: RegistryView, items: Seq<MetricsItem>, k: MetricKey)
    requires
        registry_wf(r),
    ensures
        apply_all(r, items).gauges[key_index(k)] == match last_gauge(items, k) {
            Some(v) => Some(v),
            None => r.gauges[key_index(k)],
        },
    decreases items.len(),
{
    if items.len() > 0 {
        lemma_gauge_last_write_wins(r, items.drop_last(), k);
        lemma_apply_all_wf(r, items.drop_last());
        if items.last().metrics_type != k {
            assert(key_index(items.last().metrics_type) != key_index(k));
        }
    }
}

/// The summary that the bindings give key position `i`: that of the histogram of
/// the last binding for it whose histogram exists.
pub open spec fn bound_value(h: Seq<Option<HistogramView>>, cfg: Seq<(MetricKey, MetricKey)>, i: int) -> Option<SummaryView>
    decreases cfg.len(),
{
    if cfg.len() == 0 {
        None
    } else {
        let (sk, hk) = cfg.last();
        if key_index(sk) == i && h[key_index(hk)] is Some {
            Some(summary_of(h[key_index(hk)]->0))
        } else {
            bound_value(h, cfg.drop_last(), i)
        }
    }
}

/// Recomputing sets each bound slot from its histogram and leaves the rest.
pub proof fn lemma_resummarize_pointwise(
    s: Seq<Option<SummaryView>>,
    h: Seq<Option<HistogramView>>,
    cfg: Seq<(MetricKey, MetricKey)>,
)
    requires
        s.len() == KEY_COUNT,
    ensures
        resummarize(s, h, cfg).len() == KEY_COUNT,
        forall|i: int| 0 <= i < KEY_COUNT ==> #[trigger] resummarize(s, h, cfg)[i] == match bound_value(h, cfg, i) {
            Some(v) => Some(v),
            None => s[i],
        },
    decreases cfg.len(),
{
    if cfg.len() > 0 {
        lemma_resummarize_pointwise(s, h, cfg.drop_last());
        let (sk, hk) = cfg.last();
        crate::key::lemma_key_index_round_trip(sk);
    }
}

/// Recomputing the summaries twice from unchanged histograms gives what
/// recomputing once gives.
pub proof fn lemma_resummarize_idempotent(
    s: Seq<Option<SummaryView>>,
    h: Seq<Option<HistogramView>>,
    cfg: Seq<(MetricKey, MetricKey)>,
)
    requires
        s.len() == KEY_COUNT,
    ensures
        resummarize(resummarize(s, h, cfg), h, cfg) == resummarize(s, h, cfg),
{
    let once = resummarize(s, h, cfg);
    lemma_resummarize_pointwise(s, h, cfg);
    lemma_resummarize_pointwise(once, h, cfg);
    assert(resummarize(once, h, cfg) =~= once);
}

/// If any producer's query fails, the round merges no item at all.
pub proof fn lemma_failed_query_merges_nothing(
    r: RegistryView,
    rs: Seq<Option<Result<Vec<MetricsItem>, QueryError>>>,
    j: int,
)
    requires
        0 <= j < rs.len(),
        rs[j] matches Some(Err(_)),
    ensures
        peek_result(rs) is Err,
        merge_round(r, rs) == r,
{
    assert(rs.subrange(0, j + 1).drop_last() =~= rs.subrange(0, j));
    assert(rs.subrange(0, j + 1).last() == rs[j]);
    assert(peek_result(rs.subrange(0, j + 1)) is Err);
    lemma_peek_err_stays(rs, j + 1);
}

/// A per-minute snapshot is never due less than a minute after the last one,
/// and always due once a minute has passed.
pub proof fn lemma_minute_spacing(last: u64, now: u64)
    ensures
        now >= last && now - last < MINUTE_MS ==> !minute_due(Some(last), now),
        now >= last && now - last >= MINUTE_MS ==> minute_due(Some(last), now),
{
}

/// In a run of ticks each appending one high-frequency snapshot to an initially
/// empty sequence, after `n` ticks it holds `n` entries, or the cap once `n`
/// reaches it.
pub proof fn lemma_ticks_fill_least(ts: Seq<Seq<SnapshotView>>, xs: Seq<SnapshotView>, n: int)
    requires
        0 <= n < ts.len(),
        n <= xs.len(),
        ts[0].len() == 0,
        forall|i: int| 0 <= i < n ==> #[trigger] ts[i + 1] == bounded_push(ts[i], xs[i], LEAST_CAP as nat),
    ensures
        ts[n].len() == if n < LEAST_CAP { n } else { LEAST_CAP as int },
    decreases n,
{
    if n > 0 {
        lemma_ticks_fill_least(ts, xs, n - 1);
        assert(ts[n] == bounded_push(ts[n - 1], xs[n - 1], LEAST_CAP as nat));
    }
}

/// Ticks 15, 30 and 45 s after a per-minute snapshot add none; the tick at 60 s adds one.
pub proof fn lemma_minute_over_seventy_seconds(last: u64)
    requires
        last + 60000 <= u64::MAX,
    ensures
        !minute_due(Some(last), (last + 15000) as u64),
        !minute_due(Some(last), (last + 30000) as u64),
        !minute_due(Some(last), (last + 45000) as u64),
        minute_due(Some(last), (last + 60000) as u64),
{
}

/// Concatenation of the pieces from `i` up to `n`.
pub open spec fn concat_from(b: Seq<Seq<char>>, i: int, n: int) -> Seq<char>
    decreases n - i,
{
    if n <= i {
        Seq::empty()
    } else {
        concat_from(b, i, n - 1) + b[n - 1]
    }
}

proof fn lemma_concat_split(b: Seq<Seq<char>>, i: int, n: int)
    requires
        0 <= i <= n,
    ensures
        concat(b, n) == concat(b, i) + concat_from(b, i, n),
    decreases n - i,
{
    if n > i {
        lemma_concat_split(b, i, n - 1);
        assert(concat(b, n) =~= concat(b, i) + concat_from(b, i, n));
    } else {
        assert(concat(b, n) =~= concat(b, i) + concat_from(b, i, n));
    }
}

/// Piece `i` of the first `n` stands in their concatenation.
pub proof fn lemma_concat_contains(b: Seq<Seq<char>>, i: int, n: int)
    requires
        0 <= i < n,
    ensures
        concat(b, n) == concat(b, i) + b[i] + concat_from(b, i + 1, n),
{
    lemma_concat_split(b, i + 1, n);
}

/// The export is, table by table, one piece per key position in key order:
/// a key's family where it has a value in that table, nothing where it has none.
pub proof fn lemma_export_one_block_per_key(m: MetricsManager, k: MetricKey)
    requires
        m.wf(),
    ensures
        ({
            let ss = resummarize(m.summary_manager@, m.histogram_manager@, m.summary_key_config@);
            &&& m.export_text() == concat(counter_blocks(m.counter_manager@), KEY_COUNT as int)
                + concat(gauge_blocks(m.gauge_manager@), KEY_COUNT as int)
                + concat(histogram_blocks(m.histogram_manager@), KEY_COUNT as int)
                + concat(summary_blocks(ss), KEY_COUNT as int)
            &&& counter_blocks(m.counter_manager@).len() == KEY_COUNT
            &&& gauge_blocks(m.gauge_manager@).len() == KEY_COUNT
            &&& histogram_blocks(m.histogram_manager@).len() == KEY_COUNT
            &&& summary_blocks(ss).len() == KEY_COUNT
            &&& counter_blocks(m.counter_manager@)[key_index(k)] == match m.counter_manager@[key_index(k)] {
                Some(v) => counter_block(k, v),
                None => Seq::empty(),
            }
            &&& gauge_blocks(m.gauge_manager@)[key_index(k)] == match m.gauge_manager@[key_index(k)] {
                Some(v) => gauge_block(k, v),
                None => Seq::empty(),
            }
            &&& histogram_blocks(m.histogram_manager@)[key_index(k)] == match m.histogram_manager@[key_index(k)] {
                Some(h) => histogram_block(k, h),
                None => Seq::empty(),
            }
            &&& summary_blocks(ss)[key_index(k)] == match ss[key_index(k)] {
                Some(v) => summary_block(k, v),
                None => Seq::empty(),
            }
        }),
{
    crate::key::lemma_key_index_round_trip(k);
    lemma_resummarize_pointwise(m.summary_manager@, m.histogram_manager@, m.summary_key_config@);
}

/// The last binding of a summary key decides it: with its histogram present,
/// the summary is that of the histogram as it stands.
pub proof fn lemma_last_binding_decides(h: Seq<Option<HistogramView>>, cfg: Seq<(MetricKey, MetricKey)>, j: int)
    requires
        0 <= j < cfg.len(),
        h.len() == KEY_COUNT,
        h[key_index(cfg[j].1)] is Some,
        forall|l: int| j < l < cfg.len() ==> key_index(#[trigger] cfg[l].0) != key_index(cfg[j].0),
    ensures
        bound_value(h, cfg, key_index(cfg[j].0)) == Some(summary_of(h[key_index(cfg[j].1)]->0)),
    decreases cfg.len(),
{
    if j < cfg.len() - 1 {
        assert(key_index(cfg[cfg.len() - 1].0) != key_index(cfg[j].0));
        let d = cfg.drop_last();
        assert forall|l: int| j < l < d.len() implies key_index(#[trigger] d[l].0) != key_index(d[j].0) by {
            assert(d[l] == cfg[l]);
        }
        lemma_last_binding_decides(h, d, j);
    }
}

proof fn lemma_piece_in(pre: Seq<char>, b: Seq<Seq<char>>, i: int, post: Seq<char>)
    requires
        0 <= i < KEY_COUNT,
    ensures
        exists|a: Seq<char>, c: Seq<char>| pre + concat(b, KEY_COUNT as int) + post == a + b[i] + c,
{
    lemma_concat_contains(b, i, KEY_COUNT as int);
    let a = pre + concat(b, i);
    let c = concat_from(b, i + 1, KEY_COUNT as int) + post;
    assert(pre + concat(b, KEY_COUNT as int) + post =~= a + b[i] + c);
}

/// Every key that has a counter, gauge or histogram has its entry in the
/// export, and every bound summary whose histogram exists is exported as the
/// summary of that histogram as it stands at export time.
pub proof fn lemma_export_entries(m: MetricsManager, k: MetricKey)
    requires
        m.wf(),
    ensures
        m.counter_manager@[key_index(k)] matches Some(v) ==>
            exists|a: Seq<char>, c: Seq<char>| m.export_text() == a + counter_block(k, v) + c,
        m.gauge_manager@[key_index(k)] matches Some(v) ==>
            exists|a: Seq<char>, c: Seq<char>| m.export_text() == a + gauge_block(k, v) + c,
        m.histogram_manager@[key_index(k)] matches Some(h) ==>
            exists|a: Seq<char>, c: Seq<char>| m.export_text() == a + histogram_block(k, h) + c,
        bound_value(m.histogram_manager@, m.summary_key_config@, key_index(k)) matches Some(s) ==>
            exists|a: Seq<char>, c: Seq<char>| m.export_text() == a + summary_block(k, s) + c,
{
    let i = key_index(k);
    crate::key::lemma_key_index_round_trip(k);
    let hs = m.histogram_manager@;
    let ss = resummarize(m.summary_manager@, hs, m.summary_key_config@);
    lemma_resummarize_pointwise(m.summary_manager@, hs, m.summary_key_config@);
    let ct = concat(counter_blocks(m.counter_manager@), KEY_COUNT as int);
    let gt = concat(gauge_blocks(m.gauge_manager@), KEY_COUNT as int);
    let ht = concat(histogram_blocks(hs), KEY_COUNT as int);
    let st = concat(summary_blocks(ss), KEY_COUNT as int);
    assert(m.export_text() == ct + gt + ht + st);
    let e: Seq<char> = Seq::empty();
    lemma_piece_in(e, counter_blocks(m.counter_manager@), i, gt + ht + st);
    assert(e + ct + (gt + ht + st) =~= m.export_text());
    lemma_piece_in(ct, gauge_blocks(m.gauge_manager@), i, ht + st);
    assert(ct + gt + (ht + st) =~= m.export_text());
    lemma_piece_in(ct + gt, histogram_blocks(hs), i, st);
    assert(ct + gt + ht + st =~= m.export_text());
    lemma_piece_in(ct + gt + ht, summary_blocks(ss), i, e);
    assert(ct + gt + ht + st + e =~= m.export_text());
}

} // verus!
