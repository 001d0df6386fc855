use vstd::prelude::*;
use crate::registry::{HistogramValue, HistogramView, histogram_opt_view};

verus! {

/// How many high-frequency snapshots are kept.
pub const LEAST_CAP: usize = 60;

/// How many per-minute snapshots are kept.
pub const MINUTE_CAP: usize = 60;

/// Milliseconds that count as one minute between per-minute snapshots.
pub const MINUTE_MS: u64 = 59800;

/// What a snapshot holds.
pub struct SnapshotView {
    pub gauges: Seq<Option<i64>>,
    pub counters: Seq<Option<u64>>,
    pub histograms: Seq<Option<HistogramView>>,
    pub time: u64,
}

/// A copy of the gauge, counter and histogram tables taken at one instant.
#[derive(Debug)]
pub struct MetricsSnapshot {
    pub gauge_data_map: Vec<Option<i64>>,
    pub counter_data_map: Vec<Option<u64>>,
    pub histogram_data_map: Vec<Option<HistogramValue>>,
    pub snapshot_time: u64,
}

impl View for MetricsSnapshot {
    type V = SnapshotView;

    open spec fn view(&self) -> SnapshotView {
        SnapshotView {
            gauges: self.gauge_data_map@,
            counters: self.counter_data_map@,
            histograms: self.histogram_data_map@.map_values(|o: Option<HistogramValue>| histogram_opt_view(o)),
            time: self.snapshot_time,
        }
    }
}

/// `q` with `x` appended, after dropping its oldest entry if it already holds `cap`.
pub open spec fn bounded_push<T>(q: Seq<T>, x: T, cap: nat) -> Seq<T> {
    if q.len() < cap {
        q.push(x)
    } else {
        q.drop_first().push(x)
    }
}

/// `q` after appending each of `xs` in turn, with the same bound.
pub open spec fn bounded_push_all<T>(q: Seq<T>, xs: Seq<T>, cap: nat) -> Seq<T>
    decreases xs.len(),
{
    if xs.len() == 0 {
        q
    } else {
        bounded_push(bounded_push_all(q, xs.drop_last(), cap), xs.last(), cap)
    }
}

/// Whether a per-minute snapshot is due at `now`, the last one having been taken at `last`.
pub open spec fn minute_due(last: Option<u64>, now: u64) -> bool {
    match last {
        None => true,
        Some(t) => now >= t && now - t >= MINUTE_MS,
    }
}

/// What the timeline holds.
pub struct TimelineView {
    pub least: Seq<SnapshotView>,
    pub minute: Seq<SnapshotView>,
    pub last_minute_time: Option<u64>,
}

/// Two bounded, time-ordered sequences of snapshots: one entry per collection
/// round, and one per minute.
#[derive(Debug)]
pub struct MetricsTimelineManager {
    pub least_list: Vec<MetricsSnapshot>,
    pub minute_list: Vec<MetricsSnapshot>,
    pub last_minute_time: Option<u64>,
}

pub open spec fn snapshot_views(v: Seq<MetricsSnapshot>) -> Seq<SnapshotView> {
    v.map_values(|s: MetricsSnapshot| s@)
}

impl View for MetricsTimelineManager {
    type V = TimelineView;

    open spec fn view(&self) -> TimelineView {
        TimelineView {
            least: snapshot_views(self.least_list@),
            minute: snapshot_views(self.minute_list@),
            last_minute_time: self.last_minute_time,
        }
    }
}

pub open spec fn timeline_wf(t: TimelineView) -> bool {
    &&& t.least.len() <= LEAST_CAP
    &&& t.minute.len() <= MINUTE_CAP
}

/// Appends `x` to `v`, dropping the oldest entry first if `v` holds `cap`.
fn push_bounded(v: &mut Vec<MetricsSnapshot>, x: MetricsSnapshot, cap: usize)
    requires
        0 < cap,
        old(v)@.len() <= cap,
    ensures
        snapshot_views(final(v)@) == bounded_push(snapshot_views(old(v)@), x@, cap as nat),
        final(v)@.len() <= cap,
{
    if v.len() >= cap {
        v.remove(0);
    }
    v.push(x);
    assert(snapshot_views(v@) =~= bounded_push(snapshot_views(old(v)@), x@, cap as nat));
}

impl MetricsTimelineManager {
    pub open spec fn wf(&self) -> bool {
        timeline_wf(self@)
    }

    pub fn new() -> (r: MetricsTimelineManager)
        ensures
            r.wf(),
            r@.least.len() == 0,
            r@.minute.len() == 0,
            r@.last_minute_time is None,
    {
        let r = MetricsTimelineManager { least_list: Vec::new(), minute_list: Vec::new(), last_minute_time: None };
        assert(r@.least =~= Seq::empty());
        assert(r@.minute =~= Seq::empty());
        r
    }

    /// When the last per-minute snapshot was taken.
    pub fn last_minute_record_time(&self) -> (r: Option<u64>)
        ensures
            r == self@.last_minute_time,
    {
        self.last_minute_time
    }

    /// Appends a high-frequency snapshot.
    pub fn add_least_record(&mut self, s: MetricsSnapshot)
        requires
            old(self).wf(),
        ensures
            final(self).wf(),
            final(self)@.least == bounded_push(old(self)@.least, s@, LEAST_CAP as nat),
            final(self)@.minute == old(self)@.minute,
            final(self)@.last_minute_time == old(self)@.last_minute_time,
    {
        push_bounded(&mut self.least_list, s, LEAST_CAP);
    }

    /// Appends a per-minute snapshot and notes its time.
    pub fn add_minute_record(&mut self, s: MetricsSnapshot)
        requires
            old(self).wf(),
        ensures
            final(self).wf(),
            final(self)@.minute == bounded_push(old(self)@.minute, s@, MINUTE_CAP as nat),
            final(self)@.least == old(self)@.least,
            final(self)@.last_minute_time == Some(s.snapshot_time),
    {
        let t = s.snapshot_time;
        push_bounded(&mut self.minute_list, s, MINUTE_CAP);
        self.last_minute_time = Some(t);
    }
}

/// Appending keeps a bounded sequence within its bound and grows it by one until then.
pub proof fn lemma_bounded_push_len<T>(q: Seq<T>, x: T, cap: nat)
    requires
        0 < cap,
        q.len() <= cap,
    ensures
        bounded_push(q, x, cap).len() == if q.len() < cap { q.len() + 1 } else { cap },
        bounded_push(q, x, cap).last() == x,
{
}

/// After appending `xs.len()` entries to an empty bounded sequence, it holds
/// exactly that many, or `cap` once that many have been appended.
pub proof fn lemma_bounded_push_all_len<T>(xs: Seq<T>, cap: nat)
    requires
        0 < cap,
    ensures
        bounded_push_all(Seq::empty(), xs, cap).len() == if xs.len() < cap { xs.len() } else { cap },
    decreases xs.len(),
{
    if xs.len() > 0 {
        lemma_bounded_push_all_len(xs.drop_last(), cap);
    }
}

} // verus!
