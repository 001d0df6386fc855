use vstd::prelude::*;
use crate::key::{MetricKey, KEY_COUNT, key_at, key_name};
use crate::registry::{
    HistogramValue, HistogramView, SummaryValue, SummaryView, histogram_opt_view, summary_opt_view,
    bound, bound_at, prefix, total, BOUND_COUNT, BUCKET_COUNT, LEVEL_COUNT, histogram_wf,
};

verus! {

pub open spec fn type_prefix() -> Seq<char> {
    seq!['#', ' ', 'T', 'Y', 'P', 'E', ' ']
}

fn type_prefix_text() -> (r: Vec<char>)
    ensures
        r@ == type_prefix(),
{
    vec!['#', ' ', 'T', 'Y', 'P', 'E', ' ']
}

pub open spec fn counter_tag() -> Seq<char> {
    seq![' ', 'c', 'o', 'u', 'n', 't', 'e', 'r', '\n']
}

fn counter_tag_text() -> (r: Vec<char>)
    ensures
        r@ == counter_tag(),
{
    vec![' ', 'c', 'o', 'u', 'n', 't', 'e', 'r', '\n']
}

pub open spec fn gauge_tag() -> Seq<char> {
    seq![' ', 'g', 'a', 'u', 'g', 'e', '\n']
}

fn gauge_tag_text() -> (r: Vec<char>)
    ensures
        r@ == gauge_tag(),
{
    vec![' ', 'g', 'a', 'u', 'g', 'e', '\n']
}

pub open spec fn histogram_tag() -> Seq<char> {
    seq![' ', 'h', 'i', 's', 't', 'o', 'g', 'r', 'a', 'm', '\n']
}

fn histogram_tag_text() -> (r: Vec<char>)
    ensures
        r@ == histogram_tag(),
{
    vec![' ', 'h', 'i', 's', 't', 'o', 'g', 'r', 'a', 'm', '\n']
}

pub open spec fn summary_tag() -> Seq<char> {
    seq![' ', 's', 'u', 'm', 'm', 'a', 'r', 'y', '\n']
}

fn summary_tag_text() -> (r: Vec<char>)
    ensures
        r@ == summary_tag(),
{
    vec![' ', 's', 'u', 'm', 'm', 'a', 'r', 'y', '\n']
}

pub open spec fn bucket_open() -> Seq<char> {
    seq!['_', 'b', 'u', 'c', 'k', 'e', 't', '{', 'l', 'e', '=', '"']
}

fn bucket_open_text() -> (r: Vec<char>)
    ensures
        r@ == bucket_open(),
{
    vec!['_', 'b', 'u', 'c', 'k', 'e', 't', '{', 'l', 'e', '=', '"']
}

pub open spec fn label_close() -> Seq<char> {
    seq!['"', '}', ' ']
}

fn label_close_text() -> (r: Vec<char>)
    ensures
        r@ == label_close(),
{
    vec!['"', '}', ' ']
}

pub open spec fn inf() -> Seq<char> {
    seq!['+', 'I', 'n', 'f']
}

fn inf_text() -> (r: Vec<char>)
    ensures
        r@ == inf(),
{
    vec!['+', 'I', 'n', 'f']
}

pub open spec fn sum_suffix() -> Seq<char> {
    seq!['_', 's', 'u', 'm', ' ']
}

fn sum_suffix_text() -> (r: Vec<char>)
    ensures
        r@ == sum_suffix(),
{
    vec!['_', 's', 'u', 'm', ' ']
}

pub open spec fn count_suffix() -> Seq<char> {
    seq!['_', 'c', 'o', 'u', 'n', 't', ' ']
}

fn count_suffix_text() -> (r: Vec<char>)
    ensures
        r@ == count_suffix(),
{
    vec!['_', 'c', 'o', 'u', 'n', 't', ' ']
}

pub open spec fn quantile_open() -> Seq<char> {
    seq!['{', 'q', 'u', 'a', 'n', 't', 'i', 'l', 'e', '=', '"']
}

fn quantile_open_text() -> (r: Vec<char>)
    ensures
        r@ == quantile_open(),
{
    vec!['{', 'q', 'u', 'a', 'n', 't', 'i', 'l', 'e', '=', '"']
}

pub open spec fn space() -> Seq<char> {
    seq![' ']
}

fn space_text() -> (r: Vec<char>)
    ensures
        r@ == space(),
{
    vec![' ']
}

pub open spec fn newline() -> Seq<char> {
    seq!['\n']
}

fn newline_text() -> (r: Vec<char>)
    ensures
        r@ == newline(),
{
    vec!['\n']
}

pub open spec fn minus() -> Seq<char> {
    seq!['-']
}

fn minus_text() -> (r: Vec<char>)
    ensures
        r@ == minus(),
{
    vec!['-']
}

/// Text of quantile level `i`.
pub open spec fn level_text(i: int) -> Seq<char> {
    if i == 0 {
        seq!['0', '.', '5']
    } else if i == 1 {
        seq!['0', '.', '6']
    } else if i == 2 {
        seq!['0', '.', '7']
    } else if i == 3 {
        seq!['0', '.', '8']
    } else if i == 4 {
        seq!['0', '.', '9']
    } else if i == 5 {
        seq!['0', '.', '9', '5']
    } else {
        seq!['1']
    }
}

fn level_text_at(i: usize) -> (r: Vec<char>)
    requires
        i < LEVEL_COUNT,
    ensures
        r@ == level_text(i as int),
{
    if i == 0 {
        vec!['0', '.', '5']
    } else if i == 1 {
        vec!['0', '.', '6']
    } else if i == 2 {
        vec!['0', '.', '7']
    } else if i == 3 {
        vec!['0', '.', '8']
    } else if i == 4 {
        vec!['0', '.', '9']
    } else if i == 5 {
        vec!['0', '.', '9', '5']
    } else {
        vec!['1']
    }
}
pub open spec fn digit(d: nat) -> char {
    if d == 0 { '0' }
    else if d == 1 { '1' }
    else if d == 2 { '2' }
    else if d == 3 { '3' }
    else if d == 4 { '4' }
    else if d == 5 { '5' }
    else if d == 6 { '6' }
    else if d == 7 { '7' }
    else if d == 8 { '8' }
    else { '9' }
}

/// Decimal digits of `n`, most significant first, without leading zeros.
pub open spec fn digits(n: nat) -> Seq<char>
    decreases n,
{
    if n < 10 {
        seq![digit(n)]
    } else {
        digits(n / 10) + seq![digit(n % 10)]
    }
}

/// Decimal text of an integer, with a leading minus when negative.
pub open spec fn signed(v: int) -> Seq<char> {
    if v < 0 {
        minus() + digits((-v) as nat)
    } else {
        digits(v as nat)
    }
}

fn digit_char(d: u128) -> (r: char)
    requires
        d < 10,
    ensures
        r == digit(d as nat),
{
    if d == 0 { '0' }
    else if d == 1 { '1' }
    else if d == 2 { '2' }
    else if d == 3 { '3' }
    else if d == 4 { '4' }
    else if d == 5 { '5' }
    else if d == 6 { '6' }
    else if d == 7 { '7' }
    else if d == 8 { '8' }
    else { '9' }
}

fn push_chars(out: &mut Vec<char>, s: &Vec<char>)
    ensures
        final(out)@ == old(out)@ + s@,
{
    let mut i: usize = 0;
    while i < s.len()
        invariant
            i <= s@.len(),
            out@ == old(out)@ + s@.subrange(0, i as int),
        decreases s@.len() - i,
    {
        out.push(s[i]);
        i = i + 1;
        assert(out@ =~= old(out)@ + s@.subrange(0, i as int));
    }
    assert(s@.subrange(0, s@.len() as int) =~= s@);
}

fn push_digits(out: &mut Vec<char>, n: u128)
    ensures
        final(out)@ == old(out)@ + digits(n as nat),
    decreases n,
{
    if n >= 10 {
        push_digits(out, n / 10);
    }
    out.push(digit_char(n % 10));
    assert(out@ =~= old(out)@ + digits(n as nat));
}

fn push_signed(out: &mut Vec<char>, v: i64)
    ensures
        final(out)@ == old(out)@ + signed(v as int),
{
    if v < 0 {
        push_chars(out, &minus_text());
        let m: u128 = (0 - (v as i128)) as u128;
        push_digits(out, m);
        assert(out@ =~= old(out)@ + signed(v as int));
    } else {
        push_digits(out, v as u128);
    }
}

/// Concatenation of the first `n` pieces.
pub open spec fn concat(b: Seq<Seq<char>>, n: int) -> Seq<char>
    decreases n,
{
    if n <= 0 {
        Seq::empty()
    } else {
        concat(b, n - 1) + b[n - 1]
    }
}

/// The `# TYPE` line of a family.
pub open spec fn type_line(k: MetricKey, tag: Seq<char>) -> Seq<char> {
    type_prefix() + key_name(k) + tag
}

pub open spec fn counter_block(k: MetricKey, v: u64) -> Seq<char> {
    type_line(k, counter_tag()) + key_name(k) + space() + digits(v as nat) + newline()
}

pub open spec fn gauge_block(k: MetricKey, v: i64) -> Seq<char> {
    type_line(k, gauge_tag()) + key_name(k) + space() + signed(v as int) + newline()
}

/// Line of finite bucket `i`: its bound and the number of observations at or below it.
pub open spec fn bucket_line(k: MetricKey, h: HistogramView, i: int) -> Seq<char> {
    key_name(k) + bucket_open() + digits(bound(i) as nat) + label_close() + digits(prefix(h.counts, i + 1) as nat) + newline()
}

/// The `_sum` and `_count` lines shared by histograms and summaries.
pub open spec fn tail_lines(k: MetricKey, sum: u64, count: int) -> Seq<char> {
    key_name(k) + sum_suffix() + digits(sum as nat) + newline() + key_name(k) + count_suffix() + digits(count as nat) + newline()
}

pub open spec fn histogram_block(k: MetricKey, h: HistogramView) -> Seq<char> {
    type_line(k, histogram_tag())
        + concat(Seq::new(BOUND_COUNT as nat, |i: int| bucket_line(k, h, i)), BOUND_COUNT as int)
        + key_name(k) + bucket_open() + inf() + label_close() + digits(total(h) as nat) + newline()
        + tail_lines(k, h.sum, total(h))
}

pub open spec fn quantile_line(k: MetricKey, s: SummaryView, i: int) -> Seq<char> {
    key_name(k) + quantile_open() + level_text(i) + label_close() + digits(s.values[i] as nat) + newline()
}

pub open spec fn summary_block(k: MetricKey, s: SummaryView) -> Seq<char> {
    type_line(k, summary_tag())
        + concat(Seq::new(LEVEL_COUNT as nat, |i: int| quantile_line(k, s, i)), LEVEL_COUNT as int)
        + tail_lines(k, s.sum, s.count)
}

pub open spec fn counter_blocks(t: Seq<Option<u64>>) -> Seq<Seq<char>> {
    Seq::new(t.len(), |i: int| match t[i] {
        Some(v) => counter_block(key_at(i), v),
        None => Seq::empty(),
    })
}

pub open spec fn gauge_blocks(t: Seq<Option<i64>>) -> Seq<Seq<char>> {
    Seq::new(t.len(), |i: int| match t[i] {
        Some(v) => gauge_block(key_at(i), v),
        None => Seq::empty(),
    })
}

pub open spec fn histogram_blocks(t: Seq<Option<HistogramView>>) -> Seq<Seq<char>> {
    Seq::new(t.len(), |i: int| match t[i] {
        Some(h) => histogram_block(key_at(i), h),
        None => Seq::empty(),
    })
}

pub open spec fn summary_blocks(t: Seq<Option<SummaryView>>) -> Seq<Seq<char>> {
    Seq::new(t.len(), |i: int| match t[i] {
        Some(s) => summary_block(key_at(i), s),
        None => Seq::empty(),
    })
}

/// Text of every counter, in key order.
pub open spec fn counters_text(t: Seq<Option<u64>>) -> Seq<char> {
    concat(counter_blocks(t), t.len() as int)
}

/// Text of every gauge, in key order.
pub open spec fn gauges_text(t: Seq<Option<i64>>) -> Seq<char> {
    concat(gauge_blocks(t), t.len() as int)
}

/// Text of every histogram, in key order.
pub open spec fn histograms_text(t: Seq<Option<HistogramView>>) -> Seq<char> {
    concat(histogram_blocks(t), t.len() as int)
}

/// Text of every summary, in key order.
pub open spec fn summaries_text(t: Seq<Option<SummaryView>>) -> Seq<char> {
    concat(summary_blocks(t), t.len() as int)
}

fn push_type_line(out: &mut Vec<char>, k: MetricKey, tag: &Vec<char>)
    ensures
        final(out)@ == old(out)@ + type_line(k, tag@),
{
    push_chars(out, &type_prefix_text());
    push_chars(out, &k.name());
    push_chars(out, tag);
    assert(out@ =~= old(out)@ + type_line(k, tag@));
}

fn push_tail_lines(out: &mut Vec<char>, k: MetricKey, sum: u64, count: u128)
    ensures
        final(out)@ == old(out)@ + tail_lines(k, sum, count as int),
{
    let name = k.name();
    push_chars(out, &name);
    push_chars(out, &sum_suffix_text());
    push_digits(out, sum as u128);
    push_chars(out, &newline_text());
    push_chars(out, &name);
    push_chars(out, &count_suffix_text());
    push_digits(out, count);
    push_chars(out, &newline_text());
    assert(out@ =~= old(out)@ + tail_lines(k, sum, count as int));
}

pub fn write_counter(out: &mut Vec<char>, k: MetricKey, v: u64)
    ensures
        final(out)@ == old(out)@ + counter_block(k, v),
{
    push_type_line(out, k, &counter_tag_text());
    push_chars(out, &k.name());
    push_chars(out, &space_text());
    push_digits(out, v as u128);
    push_chars(out, &newline_text());
    assert(out@ =~= old(out)@ + counter_block(k, v));
}

pub fn write_gauge(out: &mut Vec<char>, k: MetricKey, v: i64)
    ensures
        final(out)@ == old(out)@ + gauge_block(k, v),
{
    push_type_line(out, k, &gauge_tag_text());
    push_chars(out, &k.name());
    push_chars(out, &space_text());
    push_signed(out, v);
    push_chars(out, &newline_text());
    assert(out@ =~= old(out)@ + gauge_block(k, v));
}

pub fn write_histogram(out: &mut Vec<char>, k: MetricKey, h: &HistogramValue)
    requires
        histogram_wf(h@),
    ensures
        final(out)@ == old(out)@ + histogram_block(k, h@),
{
    let name = k.name();
    push_type_line(out, k, &histogram_tag_text());
    let ghost start = out@;
    let ghost lines = Seq::new(BOUND_COUNT as nat, |i: int| bucket_line(k, h@, i));
    let mut acc: u128 = 0;
    let mut i: usize = 0;
    while i < BOUND_COUNT
        invariant
            i <= BOUND_COUNT,
            histogram_wf(h@),
            name@ == key_name(k),
            lines == Seq::new(BOUND_COUNT as nat, |i: int| bucket_line(k, h@, i)),
            acc as int == prefix(h.counts@, i as int),
            acc <= i * u64::MAX,
            out@ == start + concat(lines, i as int),
        decreases BOUND_COUNT - i,
    {
        acc = acc + h.counts[i] as u128;
        push_chars(out, &name);
        push_chars(out, &bucket_open_text());
        push_digits(out, bound_at(i) as u128);
        push_chars(out, &label_close_text());
        push_digits(out, acc);
        push_chars(out, &newline_text());
        assert(out@ =~= start + concat(lines, i + 1));
        i = i + 1;
    }
    let n = h.total();
    push_chars(out, &name);
    push_chars(out, &bucket_open_text());
    push_chars(out, &inf_text());
    push_chars(out, &label_close_text());
    push_digits(out, n);
    push_chars(out, &newline_text());
    push_tail_lines(out, k, h.sum, n);
    assert(out@ =~= old(out)@ + histogram_block(k, h@));
}

pub fn write_summary(out: &mut Vec<char>, k: MetricKey, s: &SummaryValue)
    requires
        s@.values.len() == LEVEL_COUNT,
        0 <= s@.count,
    ensures
        final(out)@ == old(out)@ + summary_block(k, s@),
{
    let name = k.name();
    push_type_line(out, k, &summary_tag_text());
    let ghost start = out@;
    let ghost lines = Seq::new(LEVEL_COUNT as nat, |i: int| quantile_line(k, s@, i));
    let mut i: usize = 0;
    while i < LEVEL_COUNT
        invariant
            i <= LEVEL_COUNT,
            s@.values.len() == LEVEL_COUNT,
            name@ == key_name(k),
            lines == Seq::new(LEVEL_COUNT as nat, |i: int| quantile_line(k, s@, i)),
            out@ == start + concat(lines, i as int),
        decreases LEVEL_COUNT - i,
    {
        push_chars(out, &name);
        push_chars(out, &quantile_open_text());
        push_chars(out, &level_text_at(i));
        push_chars(out, &label_close_text());
        push_digits(out, s.values[i] as u128);
        push_chars(out, &newline_text());
        assert(out@ =~= start + concat(lines, i + 1));
        i = i + 1;
    }
    push_tail_lines(out, k, s.sum, s.count);
    assert(out@ =~= old(out)@ + summary_block(k, s@));
}

pub fn write_counters(out: &mut Vec<char>, t: &Vec<Option<u64>>)
    requires
        t@.len() == KEY_COUNT,
    ensures
        final(out)@ == old(out)@ + counters_text(t@),
{
    let ghost blocks = counter_blocks(t@);
    let mut i: usize = 0;
    while i < t.len()
        invariant
            i <= t@.len(),
            t@.len() == KEY_COUNT,
            blocks == counter_blocks(t@),
            out@ == old(out)@ + concat(blocks, i as int),
        decreases t@.len() - i,
    {
        if let Some(v) = t[i] {
            write_counter(out, MetricKey::from_index(i), v);
        }
        assert(out@ =~= old(out)@ + concat(blocks, i + 1));
        i = i + 1;
    }
}

pub fn write_gauges(out: &mut Vec<char>, t: &Vec<Option<i64>>)
    requires
        t@.len() == KEY_COUNT,
    ensures
        final(out)@ == old(out)@ + gauges_text(t@),
{
    let ghost blocks = gauge_blocks(t@);
    let mut i: usize = 0;
    while i < t.len()
        invariant
            i <= t@.len(),
            t@.len() == KEY_COUNT,
            blocks == gauge_blocks(t@),
            out@ == old(out)@ + concat(blocks, i as int),
        decreases t@.len() - i,
    {
        if let Some(v) = t[i] {
            write_gauge(out, MetricKey::from_index(i), v);
        }
        assert(out@ =~= old(out)@ + concat(blocks, i + 1));
        i = i + 1;
    }
}

pub fn write_histograms(out: &mut Vec<char>, t: &Vec<Option<HistogramValue>>)
    requires
        histograms_wf_table(t@),
    ensures
        final(out)@ == old(out)@ + histograms_text(t@.map_values(|o: Option<HistogramValue>| histogram_opt_view(o))),
{
    let ghost tv = t@.map_values(|o: Option<HistogramValue>| histogram_opt_view(o));
    let ghost blocks = histogram_blocks(tv);
    let mut i: usize = 0;
    while i < t.len()
        invariant
            i <= t@.len(),
            histograms_wf_table(t@),
            tv == t@.map_values(|o: Option<HistogramValue>| histogram_opt_view(o)),
            blocks == histogram_blocks(tv),
            out@ == old(out)@ + concat(blocks, i as int),
        decreases t@.len() - i,
    {
        assert(tv[i as int] == histogram_opt_view(t@[i as int]));
        match &t[i] {
            Some(h) => {
                write_histogram(out, MetricKey::from_index(i), h);
            },
            None => {},
        }
        assert(out@ =~= old(out)@ + concat(blocks, i + 1));
        i = i + 1;
    }
}

pub fn write_summaries(out: &mut Vec<char>, t: &Vec<Option<SummaryValue>>)
    requires
        summaries_wf_table(t@),
    ensures
        final(out)@ == old(out)@ + summaries_text(t@.map_values(|o: Option<SummaryValue>| summary_opt_view(o))),
{
    let ghost tv = t@.map_values(|o: Option<SummaryValue>| summary_opt_view(o));
    let ghost blocks = summary_blocks(tv);
    let mut i: usize = 0;
    while i < t.len()
        invariant
            i <= t@.len(),
            summaries_wf_table(t@),
            tv == t@.map_values(|o: Option<SummaryValue>| summary_opt_view(o)),
            blocks == summary_blocks(tv),
            out@ == old(out)@ + concat(blocks, i as int),
        decreases t@.len() - i,
    {
        assert(tv[i as int] == summary_opt_view(t@[i as int]));
        match &t[i] {
            Some(s) => {
                write_summary(out, MetricKey::from_index(i), s);
            },
            None => {},
        }
        assert(out@ =~= old(out)@ + concat(blocks, i + 1));
        i = i + 1;
    }
}

pub open spec fn histograms_wf_table(t: Seq<Option<HistogramValue>>) -> bool {
    &&& t.len() == KEY_COUNT
    &&& forall|i: int| 0 <= i < t.len() && #[trigger] t[i] is Some ==> histogram_wf(t[i]->0@)
}

pub open spec fn summaries_wf_table(t: Seq<Option<SummaryValue>>) -> bool {
    &&& t.len() == KEY_COUNT
    &&& forall|i: int| 0 <= i < t.len() && #[trigger] t[i] is Some ==> t[i]->0@.values.len() == LEVEL_COUNT
}

} // verus!
