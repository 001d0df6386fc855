use vstd::prelude::*;
use crate::key::{MetricKey, KEY_COUNT, key_index};
use crate::model::{
    MetricsItem, MetricsRecord, QueryError, ProcessSample, ExportError, MetricsRequest, MetricsResponse, SysConfig,
};
use crate::text::{counters_text, gauges_text, histograms_text, summaries_text, write_counters, write_gauges, write_histograms, write_summaries};
use crate::timeline::{MetricsSnapshot, SnapshotView, minute_due, bounded_push, LEAST_CAP, MINUTE_CAP};
use crate::registry::{
    CounterManager, GaugeManager, HistogramManager, SummaryManager, HistogramView, SummaryView,
    counter_after, observe, observe_all, histogram_or_empty, summary_of, summary_or_empty, histogram_opt_view,
};
use crate::timeline::MetricsTimelineManager;

verus! {

/// Bytes in one megabyte.
pub const MB: u64 = 1048576;

/// The counter, gauge and histogram tables together.
pub struct RegistryView {
    pub counters: Seq<Option<u64>>,
    pub gauges: Seq<Option<i64>>,
    pub histograms: Seq<Option<HistogramView>>,
}

/// The tables after applying one update.
pub open spec fn apply_item(r: RegistryView, item: MetricsItem) -> RegistryView {
    let k = key_index(item.metrics_type);
    match item.record {
        MetricsRecord::CounterInc(v) => RegistryView {
            counters: r.counters.update(k, Some(counter_after(r.counters[k], v))),
            ..r
        },
        MetricsRecord::Gauge(v) => RegistryView { gauges: r.gauges.update(k, Some(v)), ..r },
        MetricsRecord::HistogramRecord(v) => RegistryView {
            histograms: r.histograms.update(k, Some(observe(histogram_or_empty(r.histograms[k]), v))),
            ..r
        },
        MetricsRecord::HistogramRecords(vs) => if vs@.len() == 0 {
            r
        } else {
            RegistryView {
                histograms: r.histograms.update(k, Some(observe_all(histogram_or_empty(r.histograms[k]), vs@))),
                ..r
            }
        },
    }
}

/// The tables after applying each of `items`, first to last.
pub open spec fn apply_all(r: RegistryView, items: Seq<MetricsItem>) -> RegistryView
    decreases items.len(),
{
    if items.len() == 0 {
        r
    } else {
        apply_item(apply_all(r, items.drop_last()), items.last())
    }
}

/// Summaries after recomputing, in order, each bound summary whose histogram exists.
pub open spec fn resummarize(
    s: Seq<Option<SummaryView>>,
    h: Seq<Option<HistogramView>>,
    cfg: Seq<(MetricKey, MetricKey)>,
) -> Seq<Option<SummaryView>>
    decreases cfg.len(),
{
    if cfg.len() == 0 {
        s
    } else {
        let prev = resummarize(s, h, cfg.drop_last());
        let (sk, hk) = cfg.last();
        match h[key_index(hk)] {
            Some(hv) => prev.update(key_index(sk), Some(summary_of(hv))),
            None => prev,
        }
    }
}

/// Outcome of querying each producer in turn: absent producers are skipped, the
/// first failure ends the round with that failure, and otherwise the items are
/// joined in producer order.
pub open spec fn peek_result(rs: Seq<Option<Result<Vec<MetricsItem>, QueryError>>>) -> Result<Seq<MetricsItem>, QueryError>
    decreases rs.len(),
{
    if rs.len() == 0 {
        Ok(Seq::empty())
    } else {
        match peek_result(rs.drop_last()) {
            Err(e) => Err(e),
            Ok(l) => match rs.last() {
                None => Ok(l),
                Some(Ok(v)) => Ok(l + v@),
                Some(Err(e)) => Err(e),
            },
        }
    }
}

/// Milliseconds that must pass between two log lines.
pub open spec fn log_gap(log_interval: u64) -> int {
    let secs: int = if log_interval == 0 { 0 } else { log_interval - 1 };
    if secs * 1000 > u64::MAX { u64::MAX as int } else { secs * 1000 }
}

/// Whether a log line is due at `now`, the last having been written at `last`.
pub open spec fn log_due(last: u64, now: u64, log_interval: u64) -> bool {
    now >= last && now - last >= log_gap(log_interval)
}

/// Resident memory as hundredths of a percent of total memory, capped at the largest `i64`.
pub open spec fn memory_usage(rss: u64, total_memory: u64) -> i64 {
    if total_memory == 0 {
        0
    } else if rss * 10000 / (total_memory as int) > i64::MAX {
        i64::MAX
    } else {
        (rss * 10000 / (total_memory as int)) as i64
    }
}

/// Whole seconds from `start` to `now`; 0 if `now` is earlier.
pub open spec fn running_seconds(start: u64, now: u64) -> i64 {
    if now >= start { ((now - start) / 1000) as i64 } else { 0 }
}

/// The gauges after taking in one resource sample.
pub open spec fn sample_gauges(g: Seq<Option<i64>>, s: ProcessSample, start: u64, total_memory: u64, now: u64) -> Seq<Option<i64>> {
    g.update(key_index(MetricKey::ProcessStartTimeSeconds), Some(running_seconds(start, now)))
        .update(key_index(MetricKey::AppCpuUsage), Some(s.cpu_usage_centi as i64))
        .update(key_index(MetricKey::AppRssMemory), Some((s.memory_bytes / MB) as i64))
        .update(key_index(MetricKey::AppVmsMemory), Some((s.virtual_memory_bytes / MB) as i64))
        .update(key_index(MetricKey::AppMemoryUsage), Some(memory_usage(s.memory_bytes, total_memory)))
}

/// The tables after merging a round's outcome: the items when every query
/// succeeded, nothing when one failed.
pub open spec fn merge_round(r: RegistryView, rs: Seq<Option<Result<Vec<MetricsItem>, QueryError>>>) -> RegistryView {
    match peek_result(rs) {
        Ok(items) => apply_all(r, items),
        Err(_) => r,
    }
}

/// The gauges after an optional resource sample.
pub open spec fn sampled(g: Seq<Option<i64>>, s: Option<ProcessSample>, start: u64, total_memory: u64, now: u64) -> Seq<Option<i64>> {
    match s {
        Some(x) => sample_gauges(g, x, start, total_memory, now),
        None => g,
    }
}

/// Relies on `String`'s `FromIterator<&char>`: the string holds the characters in order.
#[verifier::external_body]
fn chars_to_string(v: &Vec<char>) -> (r: String)
    ensures
        r@ == v@,
{
    v.iter().collect()
}

/// The histogram table once the latency histograms are set up.
pub open spec fn init_histograms(h: Seq<Option<HistogramView>>) -> Seq<Option<HistogramView>> {
    let g = key_index(MetricKey::GrpcRequestHandleRtHistogram);
    let t = key_index(MetricKey::HttpRequestHandleRtHistogram);
    h.update(g, Some(histogram_or_empty(h[g]))).update(t, Some(histogram_or_empty(h[t])))
}

/// The summary table once the latency summaries are set up.
pub open spec fn init_summaries(s: Seq<Option<SummaryView>>) -> Seq<Option<SummaryView>> {
    let g = key_index(MetricKey::GrpcRequestHandleRtSummary);
    let t = key_index(MetricKey::HttpRequestHandleRtSummary);
    s.update(g, Some(summary_or_empty(s[g]))).update(t, Some(summary_or_empty(s[t])))
}

/// The bindings once the latency summaries are bound to their histograms.
pub open spec fn init_bindings(c: Seq<(MetricKey, MetricKey)>) -> Seq<(MetricKey, MetricKey)> {
    c.push((MetricKey::HttpRequestHandleRtSummary, MetricKey::HttpRequestHandleRtHistogram))
        .push((MetricKey::GrpcRequestHandleRtSummary, MetricKey::GrpcRequestHandleRtHistogram))
}

/// The collector: owns the registries and the timeline, and decides each step
/// of the collection loop.
#[derive(Debug)]
pub struct MetricsManager {
    pub counter_manager: CounterManager,
    pub gauge_manager: GaugeManager,
    pub histogram_manager: HistogramManager,
    pub summary_manager: SummaryManager,
    pub summary_key_config: Vec<(MetricKey, MetricKey)>,
    pub metrics_timeline_manager: MetricsTimelineManager,
    pub start_time_millis: u64,
    pub total_memory: u64,
    pub collect_interval: u64,
    pub log_interval: u64,
    pub last_collect_time: u64,
    pub last_log_time: u64,
    pub metrics_enable: bool,
}

impl MetricsManager {
    pub open spec fn wf(&self) -> bool {
        &&& self.counter_manager.wf()
        &&& self.gauge_manager.wf()
        &&& self.histogram_manager.wf()
        &&& self.summary_manager.wf()
        &&& self.metrics_timeline_manager.wf()
    }

    /// Settings and times that only configuration and the round itself change.
    pub open spec fn same_settings(&self, o: &MetricsManager) -> bool {
        &&& self.metrics_enable == o.metrics_enable
        &&& self.collect_interval == o.collect_interval
        &&& self.log_interval == o.log_interval
        &&& self.start_time_millis == o.start_time_millis
        &&& self.total_memory == o.total_memory
    }

    /// A snapshot of the tables as they stand, stamped `now`.
    pub open spec fn snapshot_of(&self, now: u64) -> SnapshotView {
        SnapshotView {
            gauges: self.gauge_manager@,
            counters: self.counter_manager@,
            histograms: self.histogram_manager@,
            time: now,
        }
    }

    /// The exported text: counters, gauges, histograms, then the summaries
    /// recomputed from the histograms as they stand.
    pub open spec fn export_text(&self) -> Seq<char> {
        counters_text(self.counter_manager@) + gauges_text(self.gauge_manager@)
            + histograms_text(self.histogram_manager@)
            + summaries_text(resummarize(self.summary_manager@, self.histogram_manager@, self.summary_key_config@))
    }

    /// The counter, gauge and histogram tables.
    pub open spec fn registries(&self) -> RegistryView {
        RegistryView {
            counters: self.counter_manager@,
            gauges: self.gauge_manager@,
            histograms: self.histogram_manager@,
        }
    }

    /// A collector with empty registries but for the total-memory gauge (in MB),
    /// collection enabled every 15 s, and a log line at most every 60 s.
    pub fn new(start_time_millis: u64, total_memory: u64) -> (r: MetricsManager)
        ensures
            r.wf(),
            r.registries().counters == Seq::new(KEY_COUNT as nat, |i: int| None::<u64>),
            r.registries().gauges == Seq::new(KEY_COUNT as nat, |i: int| None::<i64>).update(
                key_index(MetricKey::SysTotalMemory), Some((total_memory / MB) as i64)),
            r.registries().histograms == Seq::new(KEY_COUNT as nat, |i: int| None::<HistogramView>),
            r.summary_manager@ == Seq::new(KEY_COUNT as nat, |i: int| None::<SummaryView>),
            r.summary_key_config@.len() == 0,
            r.metrics_timeline_manager@.least.len() == 0,
            r.metrics_timeline_manager@.minute.len() == 0,
            r.metrics_timeline_manager@.last_minute_time is None,
            r.start_time_millis == start_time_millis,
            r.total_memory == total_memory,
            r.collect_interval == 15,
            r.log_interval == 60,
            r.last_collect_time == 0,
            r.last_log_time == 0,
            r.metrics_enable,
    {
        let mut gauge_manager = GaugeManager::new();
        gauge_manager.set(MetricKey::SysTotalMemory, (total_memory / MB) as i64);
        let r = MetricsManager {
            counter_manager: CounterManager::new(),
            gauge_manager,
            histogram_manager: HistogramManager::new(),
            summary_manager: SummaryManager::new(),
            summary_key_config: Vec::new(),
            metrics_timeline_manager: MetricsTimelineManager::new(),
            start_time_millis,
            total_memory,
            collect_interval: 15,
            log_interval: 60,
            last_collect_time: 0,
            last_log_time: 0,
            metrics_enable: true,
        };
        assert(r.registries().counters =~= Seq::new(KEY_COUNT as nat, |i: int| None::<u64>));
        assert(r.registries().gauges =~= Seq::new(KEY_COUNT as nat, |i: int| None::<i64>).update(
            key_index(MetricKey::SysTotalMemory), Some((total_memory / MB) as i64)));
        assert(r.registries().histograms =~= Seq::new(KEY_COUNT as nat, |i: int| None::<HistogramView>));
        assert(r.summary_manager@ =~= Seq::new(KEY_COUNT as nat, |i: int| None::<SummaryView>));
        r
    }

    /// Applies one update to the registry that its record names.
    pub fn update_item_record(&mut self, item: MetricsItem)
        requires
            old(self).wf(),
        ensures
            final(self).wf(),
            final(self).registries() == apply_item(old(self).registries(), item),
            final(self).summary_manager == old(self).summary_manager,
            final(self).summary_key_config == old(self).summary_key_config,
            final(self).metrics_timeline_manager == old(self).metrics_timeline_manager,
            final(self).metrics_enable == old(self).metrics_enable,
            final(self).collect_interval == old(self).collect_interval,
            final(self).log_interval == old(self).log_interval,
            final(self).last_log_time == old(self).last_log_time,
            final(self).last_collect_time == old(self).last_collect_time,
            final(self).start_time_millis == old(self).start_time_millis,
            final(self).total_memory == old(self).total_memory,
    {
        let ghost item_copy = item;
        match item.record {
            MetricsRecord::CounterInc(v) => self.counter_manager.increment(item.metrics_type, v),
            MetricsRecord::Gauge(v) => self.gauge_manager.set(item.metrics_type, v),
            MetricsRecord::HistogramRecord(v) => self.histogram_manager.record(&item.metrics_type, v),
            MetricsRecord::HistogramRecords(batch_value) => {
                self.histogram_manager.record_many(&item.metrics_type, &batch_value)
            },
        }
        assert(self.registries() == apply_item(old(self).registries(), item_copy));
    }

    /// Applies each of `items`, first to last.
    pub fn update_item_records(&mut self, items: Vec<MetricsItem>)
        requires
            old(self).wf(),
        ensures
            final(self).wf(),
            final(self).registries() == apply_all(old(self).registries(), items@),
            final(self).summary_manager == old(self).summary_manager,
            final(self).summary_key_config == old(self).summary_key_config,
            final(self).metrics_timeline_manager == old(self).metrics_timeline_manager,
            final(self).metrics_enable == old(self).metrics_enable,
            final(self).collect_interval == old(self).collect_interval,
            final(self).log_interval == old(self).log_interval,
            final(self).last_log_time == old(self).last_log_time,
            final(self).last_collect_time == old(self).last_collect_time,
            final(self).start_time_millis == old(self).start_time_millis,
            final(self).total_memory == old(self).total_memory,
    {
        let ghost all = items@;
        let mut rest = items;
        let ghost mut done: int = 0;
        while rest.len() > 0
            invariant
                0 <= done <= all.len(),
                rest@ == all.subrange(done, all.len() as int),
                self.wf(),
                self.registries() == apply_all(old(self).registries(), all.subrange(0, done)),
                self.summary_manager == old(self).summary_manager,
                self.summary_key_config == old(self).summary_key_config,
                self.metrics_timeline_manager == old(self).metrics_timeline_manager,
                self.metrics_enable == old(self).metrics_enable,
                self.collect_interval == old(self).collect_interval,
                self.log_interval == old(self).log_interval,
                self.last_log_time == old(self).last_log_time,
                self.last_collect_time == old(self).last_collect_time,
                self.start_time_millis == old(self).start_time_millis,
                self.total_memory == old(self).total_memory,
            decreases rest@.len(),
        {
            let item = rest.remove(0);
            proof {
                assert(all.subrange(0, done + 1).drop_last() =~= all.subrange(0, done));
                assert(all.subrange(0, done + 1).last() == item);
            }
            self.update_item_record(item);
            proof {
                done = done + 1;
            }
            assert(rest@ =~= all.subrange(done, all.len() as int));
        }
        assert(all.subrange(0, done) =~= all);
    }
}

impl MetricsManager {
    /// Sets up the latency histograms, their summaries, and which summary is
    /// derived from which histogram.
    pub fn init_histogram(&mut self)
        requires
            old(self).wf(),
        ensures
            final(self).wf(),
            final(self).counter_manager == old(self).counter_manager,
            final(self).gauge_manager == old(self).gauge_manager,
            final(self).histogram_manager@ == init_histograms(old(self).histogram_manager@),
            final(self).summary_manager@ == init_summaries(old(self).summary_manager@),
            final(self).summary_key_config@ == init_bindings(old(self).summary_key_config@),
            final(self).metrics_timeline_manager == old(self).metrics_timeline_manager,
            final(self).same_settings(old(self)),
            final(self).last_log_time == old(self).last_log_time,
            final(self).last_collect_time == old(self).last_collect_time,
    {
        self.histogram_manager.init(MetricKey::GrpcRequestHandleRtHistogram);
        self.summary_manager.init(MetricKey::GrpcRequestHandleRtSummary);
        self.histogram_manager.init(MetricKey::HttpRequestHandleRtHistogram);
        self.summary_manager.init(MetricKey::HttpRequestHandleRtSummary);
        self.summary_key_config.push((MetricKey::HttpRequestHandleRtSummary, MetricKey::HttpRequestHandleRtHistogram));
        self.summary_key_config.push((MetricKey::GrpcRequestHandleRtSummary, MetricKey::GrpcRequestHandleRtHistogram));
    }

    /// Recomputes every bound summary from its histogram's current state.
    pub fn reset_summary(&mut self)
        requires
            old(self).wf(),
        ensures
            final(self).wf(),
            final(self).summary_manager@ == resummarize(old(self).summary_manager@, old(self).histogram_manager@, old(self).summary_key_config@),
            final(self).counter_manager == old(self).counter_manager,
            final(self).gauge_manager == old(self).gauge_manager,
            final(self).histogram_manager == old(self).histogram_manager,
            final(self).summary_key_config == old(self).summary_key_config,
            final(self).metrics_timeline_manager == old(self).metrics_timeline_manager,
            final(self).same_settings(old(self)),
            final(self).last_log_time == old(self).last_log_time,
            final(self).last_collect_time == old(self).last_collect_time,
    {
        let mut i: usize = 0;
        while i < self.summary_key_config.len()
            invariant
                i <= self.summary_key_config@.len(),
                self.wf(),
                self.summary_manager@ == resummarize(old(self).summary_manager@, old(self).histogram_manager@, old(self).summary_key_config@.subrange(0, i as int)),
                self.counter_manager == old(self).counter_manager,
                self.gauge_manager == old(self).gauge_manager,
                self.histogram_manager == old(self).histogram_manager,
                self.summary_key_config == old(self).summary_key_config,
                self.metrics_timeline_manager == old(self).metrics_timeline_manager,
                self.same_settings(old(self)),
                self.last_log_time == old(self).last_log_time,
                self.last_collect_time == old(self).last_collect_time,
            decreases self.summary_key_config@.len() - i,
        {
            let (summary_key, histogram_key) = self.summary_key_config[i];
            proof {
                assert(self.summary_key_config@.subrange(0, i + 1).drop_last() =~= self.summary_key_config@.subrange(0, i as int));
            }
            if let Some(histogram_value) = self.histogram_manager.get_value(&histogram_key) {
                self.summary_manager.recalculate_from_histogram(&summary_key, histogram_value);
            }
            i = i + 1;
        }
        assert(self.summary_key_config@.subrange(0, i as int) =~= self.summary_key_config@);
    }
}

/// Queries' outcomes, one per producer in a fixed order (`None` where the
/// producer is absent), folded into the round's items or its first failure.
pub fn do_peek_metrics(results: Vec<Option<Result<Vec<MetricsItem>, QueryError>>>) -> (r: Result<Vec<MetricsItem>, QueryError>)
    ensures
        match (r, peek_result(results@)) {
            (Ok(l), Ok(m)) => l@ == m,
            (Err(e), Err(f)) => e == f,
            _ => false,
        },
{
    let ghost all = results@;
    let mut rest = results;
    let mut list: Vec<MetricsItem> = Vec::new();
    let ghost mut done: int = 0;
    while rest.len() > 0
        invariant
            0 <= done <= all.len(),
            all == results@,
            rest@ == all.subrange(done, all.len() as int),
            peek_result(all.subrange(0, done)) == Ok::<Seq<MetricsItem>, QueryError>(list@),
        decreases rest@.len(),
    {
        let outcome = rest.remove(0);
        proof {
            assert(all.subrange(0, done + 1).drop_last() =~= all.subrange(0, done));
            assert(all.subrange(0, done + 1).last() == outcome);
        }
        match outcome {
            None => {},
            Some(Ok(mut t)) => {
                list.append(&mut t);
            },
            Some(Err(e)) => {
                proof {
                    assert(peek_result(all.subrange(0, done + 1)) == Err::<Seq<MetricsItem>, QueryError>(e));
                    lemma_peek_err_stays(all, done + 1);
                }
                return Err(e);
            },
        }
        proof {
            done = done + 1;
        }
        assert(rest@ =~= all.subrange(done, all.len() as int));
    }
    assert(all.subrange(0, done) =~= all);
    Ok(list)
}

/// Once the fold has failed on a prefix, it fails with the same error on the whole.
pub proof fn lemma_peek_err_stays(rs: Seq<Option<Result<Vec<MetricsItem>, QueryError>>>, n: int)
    requires
        0 <= n <= rs.len(),
        peek_result(rs.subrange(0, n)) is Err,
    ensures
        peek_result(rs) == peek_result(rs.subrange(0, n)),
    decreases rs.len() - n,
{
    if n < rs.len() {
        assert(rs.subrange(0, n + 1).drop_last() =~= rs.subrange(0, n));
        lemma_peek_err_stays(rs, n + 1);
    } else {
        assert(rs.subrange(0, n) =~= rs);
    }
}

impl MetricsManager {
    /// Merges a round's outcome: its items when it succeeded, nothing otherwise.
    pub fn update_peek_metrics(&mut self, r: Result<Vec<MetricsItem>, QueryError>)
        requires
            old(self).wf(),
        ensures
            final(self).wf(),
            final(self).registries() == match r {
                Ok(items) => apply_all(old(self).registries(), items@),
                Err(_) => old(self).registries(),
            },
            final(self).summary_manager == old(self).summary_manager,
            final(self).summary_key_config == old(self).summary_key_config,
            final(self).metrics_timeline_manager == old(self).metrics_timeline_manager,
            final(self).same_settings(old(self)),
            final(self).last_log_time == old(self).last_log_time,
            final(self).last_collect_time == old(self).last_collect_time,
    {
        if let Ok(list) = r {
            self.update_item_records(list);
        }
    }

    /// Decides whether a log line is due at `now`, and if so notes `now` as the
    /// time of the last one.
    pub fn print_metrics(&mut self, now: u64) -> (r: bool)
        ensures
            r == log_due(old(self).last_log_time, now, old(self).log_interval),
            final(self).last_log_time == if r { now } else { old(self).last_log_time },
            final(self).counter_manager == old(self).counter_manager,
            final(self).gauge_manager == old(self).gauge_manager,
            final(self).histogram_manager == old(self).histogram_manager,
            final(self).summary_manager == old(self).summary_manager,
            final(self).summary_key_config == old(self).summary_key_config,
            final(self).metrics_timeline_manager == old(self).metrics_timeline_manager,
            final(self).same_settings(old(self)),
            final(self).last_collect_time == old(self).last_collect_time,
    {
        let secs = self.log_interval.saturating_sub(1);
        let gap: u64 = if secs > u64::MAX / 1000 { u64::MAX } else { secs * 1000 };
        if now < self.last_log_time || now - self.last_log_time < gap {
            return false;
        }
        self.last_log_time = now;
        true
    }

    /// Takes in a resource sample (none when the process could not be read:
    /// the gauges keep their values) and notes `now` as the collection time.
    pub fn load_sys_metrics(&mut self, sample: Option<ProcessSample>, now: u64)
        requires
            old(self).wf(),
        ensures
            final(self).wf(),
            final(self).gauge_manager@ == sampled(old(self).gauge_manager@, sample, old(self).start_time_millis, old(self).total_memory, now),
            final(self).last_collect_time == now,
            final(self).counter_manager == old(self).counter_manager,
            final(self).histogram_manager == old(self).histogram_manager,
            final(self).summary_manager == old(self).summary_manager,
            final(self).summary_key_config == old(self).summary_key_config,
            final(self).metrics_timeline_manager == old(self).metrics_timeline_manager,
            final(self).same_settings(old(self)),
            final(self).last_log_time == old(self).last_log_time,
    {
        if let Some(s) = sample {
            let running = if now >= self.start_time_millis { ((now - self.start_time_millis) / 1000) as i64 } else { 0 };
            let usage: i64 = if self.total_memory == 0 {
                0
            } else {
                let u: u128 = s.memory_bytes as u128 * 10000 / self.total_memory as u128;
                if u > i64::MAX as u128 { i64::MAX } else { u as i64 }
            };
            self.gauge_manager.set(MetricKey::ProcessStartTimeSeconds, running);
            self.gauge_manager.set(MetricKey::AppCpuUsage, s.cpu_usage_centi as i64);
            self.gauge_manager.set(MetricKey::AppRssMemory, (s.memory_bytes / MB) as i64);
            self.gauge_manager.set(MetricKey::AppVmsMemory, (s.virtual_memory_bytes / MB) as i64);
            self.gauge_manager.set(MetricKey::AppMemoryUsage, usage);
        }
        self.last_collect_time = now;
    }

    /// A deep copy of the gauge, counter and histogram tables, stamped `now_ms`.
    pub fn build_snapshot(&self, now_ms: u64) -> (r: MetricsSnapshot)
        ensures
            r@ == self.snapshot_of(now_ms),
    {
        MetricsSnapshot {
            gauge_data_map: self.gauge_manager.copy(),
            counter_data_map: self.counter_manager.copy(),
            histogram_data_map: self.histogram_manager.copy(),
            snapshot_time: now_ms,
        }
    }

    /// Appends a per-minute snapshot when a minute has passed since the last one.
    pub fn record_minute_snapshot(&mut self, now_ms: u64)
        requires
            old(self).wf(),
        ensures
            final(self).wf(),
            minute_due(old(self).metrics_timeline_manager@.last_minute_time, now_ms) ==> {
                &&& final(self).metrics_timeline_manager@.minute
                    == bounded_push(old(self).metrics_timeline_manager@.minute, old(self).snapshot_of(now_ms), MINUTE_CAP as nat)
                &&& final(self).metrics_timeline_manager@.last_minute_time == Some(now_ms)
            },
            !minute_due(old(self).metrics_timeline_manager@.last_minute_time, now_ms)
                ==> final(self).metrics_timeline_manager@ == old(self).metrics_timeline_manager@,
            final(self).metrics_timeline_manager@.least == old(self).metrics_timeline_manager@.least,
            final(self).counter_manager == old(self).counter_manager,
            final(self).gauge_manager == old(self).gauge_manager,
            final(self).histogram_manager == old(self).histogram_manager,
            final(self).summary_manager == old(self).summary_manager,
            final(self).summary_key_config == old(self).summary_key_config,
            final(self).same_settings(old(self)),
            final(self).last_log_time == old(self).last_log_time,
            final(self).last_collect_time == old(self).last_collect_time,
    {
        let due = match self.metrics_timeline_manager.last_minute_record_time() {
            None => true,
            Some(t) => now_ms >= t && now_ms - t >= crate::timeline::MINUTE_MS,
        };
        if due {
            let snapshot = self.build_snapshot(now_ms);
            self.metrics_timeline_manager.add_minute_record(snapshot);
        }
    }

    /// Appends a high-frequency snapshot.
    pub fn record_least_snapshot(&mut self, now_ms: u64)
        requires
            old(self).wf(),
        ensures
            final(self).wf(),
            final(self).metrics_timeline_manager@.least
                == bounded_push(old(self).metrics_timeline_manager@.least, old(self).snapshot_of(now_ms), LEAST_CAP as nat),
            final(self).metrics_timeline_manager@.minute == old(self).metrics_timeline_manager@.minute,
            final(self).metrics_timeline_manager@.last_minute_time == old(self).metrics_timeline_manager@.last_minute_time,
            final(self).counter_manager == old(self).counter_manager,
            final(self).gauge_manager == old(self).gauge_manager,
            final(self).histogram_manager == old(self).histogram_manager,
            final(self).summary_manager == old(self).summary_manager,
            final(self).summary_key_config == old(self).summary_key_config,
            final(self).same_settings(old(self)),
            final(self).last_log_time == old(self).last_log_time,
            final(self).last_collect_time == old(self).last_collect_time,
    {
        let snapshot = self.build_snapshot(now_ms);
        self.metrics_timeline_manager.add_least_record(snapshot);
    }
}

impl MetricsManager {
    /// The rest of a round once the producers' items are merged: recompute the
    /// summaries, take in the resource sample, decide whether to log, and append
    /// the snapshots. Returns whether a log line is due.
    pub fn after_peek_metrics(&mut self, sample: Option<ProcessSample>, now: u64) -> (r: bool)
        requires
            old(self).wf(),
        ensures
            final(self).wf(),
            final(self).summary_manager@ == resummarize(old(self).summary_manager@, old(self).histogram_manager@, old(self).summary_key_config@),
            final(self).gauge_manager@ == sampled(old(self).gauge_manager@, sample, old(self).start_time_millis, old(self).total_memory, now),
            final(self).counter_manager == old(self).counter_manager,
            final(self).histogram_manager == old(self).histogram_manager,
            final(self).summary_key_config == old(self).summary_key_config,
            final(self).last_collect_time == now,
            r == log_due(old(self).last_log_time, now, old(self).log_interval),
            final(self).last_log_time == if r { now } else { old(self).last_log_time },
            final(self).metrics_timeline_manager@.least
                == bounded_push(old(self).metrics_timeline_manager@.least, final(self).snapshot_of(now), LEAST_CAP as nat),
            minute_due(old(self).metrics_timeline_manager@.last_minute_time, now) ==> {
                &&& final(self).metrics_timeline_manager@.minute
                    == bounded_push(old(self).metrics_timeline_manager@.minute, final(self).snapshot_of(now), MINUTE_CAP as nat)
                &&& final(self).metrics_timeline_manager@.last_minute_time == Some(now)
            },
            !minute_due(old(self).metrics_timeline_manager@.last_minute_time, now) ==> {
                &&& final(self).metrics_timeline_manager@.minute == old(self).metrics_timeline_manager@.minute
                &&& final(self).metrics_timeline_manager@.last_minute_time == old(self).metrics_timeline_manager@.last_minute_time
            },
            final(self).same_settings(old(self)),
    {
        self.reset_summary();
        self.load_sys_metrics(sample, now);
        let log = self.print_metrics(now);
        self.record_least_snapshot(now);
        self.record_minute_snapshot(now);
        log
    }

    /// One collection round, given each producer's query outcome (in a fixed
    /// order, `None` for an absent producer) and a resource sample. A failed
    /// query discards the whole round's items; the round completes either way.
    /// Returns whether a log line is due.
    pub fn load_metrics(
        &mut self,
        results: Vec<Option<Result<Vec<MetricsItem>, QueryError>>>,
        sample: Option<ProcessSample>,
        now: u64,
    ) -> (r: bool)
        requires
            old(self).wf(),
        ensures
            final(self).wf(),
            final(self).counter_manager@ == merge_round(old(self).registries(), results@).counters,
            final(self).histogram_manager@ == merge_round(old(self).registries(), results@).histograms,
            final(self).gauge_manager@ == sampled(merge_round(old(self).registries(), results@).gauges, sample,
                old(self).start_time_millis, old(self).total_memory, now),
            final(self).summary_manager@ == resummarize(old(self).summary_manager@,
                merge_round(old(self).registries(), results@).histograms, old(self).summary_key_config@),
            final(self).summary_key_config == old(self).summary_key_config,
            final(self).last_collect_time == now,
            r == log_due(old(self).last_log_time, now, old(self).log_interval),
            final(self).last_log_time == if r { now } else { old(self).last_log_time },
            final(self).metrics_timeline_manager@.least
                == bounded_push(old(self).metrics_timeline_manager@.least, final(self).snapshot_of(now), LEAST_CAP as nat),
            minute_due(old(self).metrics_timeline_manager@.last_minute_time, now) ==> {
                &&& final(self).metrics_timeline_manager@.minute
                    == bounded_push(old(self).metrics_timeline_manager@.minute, final(self).snapshot_of(now), MINUTE_CAP as nat)
                &&& final(self).metrics_timeline_manager@.last_minute_time == Some(now)
            },
            !minute_due(old(self).metrics_timeline_manager@.last_minute_time, now) ==> {
                &&& final(self).metrics_timeline_manager@.minute == old(self).metrics_timeline_manager@.minute
                &&& final(self).metrics_timeline_manager@.last_minute_time == old(self).metrics_timeline_manager@.last_minute_time
            },
            final(self).same_settings(old(self)),
    {
        let merged = do_peek_metrics(results);
        self.update_peek_metrics(merged);
        self.after_peek_metrics(sample, now)
    }

    /// Seconds until the next round is due, counted from the end of this one.
    pub fn hb(&self) -> (r: u64)
        ensures
            r == self.collect_interval,
    {
        self.collect_interval
    }

    /// Encodes every registry as exposition text, recomputing the summaries first.
    pub fn export(&mut self) -> (r: Result<String, ExportError>)
        requires
            old(self).wf(),
        ensures
            final(self).wf(),
            (r matches Ok(s) && s@ == old(self).export_text()),
            final(self).summary_manager@ == resummarize(old(self).summary_manager@, old(self).histogram_manager@, old(self).summary_key_config@),
            final(self).counter_manager == old(self).counter_manager,
            final(self).gauge_manager == old(self).gauge_manager,
            final(self).histogram_manager == old(self).histogram_manager,
            final(self).summary_key_config == old(self).summary_key_config,
            final(self).metrics_timeline_manager == old(self).metrics_timeline_manager,
            final(self).same_settings(old(self)),
            final(self).last_log_time == old(self).last_log_time,
            final(self).last_collect_time == old(self).last_collect_time,
    {
        let mut out: Vec<char> = Vec::new();
        write_counters(&mut out, &self.counter_manager.data_map);
        write_gauges(&mut out, &self.gauge_manager.data_map);
        assert forall|i: int| 0 <= i < self.histogram_manager.data_map@.len() && #[trigger] self.histogram_manager.data_map@[i] is Some
            implies crate::registry::histogram_wf(self.histogram_manager.data_map@[i]->0@) by {
            assert(self.histogram_manager@[i] == histogram_opt_view(self.histogram_manager.data_map@[i]));
        }
        write_histograms(&mut out, &self.histogram_manager.data_map);
        self.reset_summary();
        assert forall|i: int| 0 <= i < self.summary_manager.data_map@.len() && #[trigger] self.summary_manager.data_map@[i] is Some
            implies self.summary_manager.data_map@[i]->0@.values.len() == crate::registry::LEVEL_COUNT by {
            assert(self.summary_manager@[i] == crate::registry::summary_opt_view(self.summary_manager.data_map@[i]));
        }
        write_summaries(&mut out, &self.summary_manager.data_map);
        assert(out@ =~= old(self).export_text());
        Ok(chars_to_string(&out))
    }

    /// Serves a request from an in-process caller. With collection disabled
    /// every request is answered `Done` and nothing changes.
    pub fn handle(&mut self, msg: MetricsRequest) -> (r: Result<MetricsResponse, ExportError>)
        requires
            old(self).wf(),
        ensures
            final(self).wf(),
            !old(self).metrics_enable ==> ((r matches Ok(MetricsResponse::Done)) && *final(self) == *old(self)),
            old(self).metrics_enable ==> match msg {
                MetricsRequest::Record(item) => (r matches Ok(MetricsResponse::Done))
                    && final(self).registries() == apply_item(old(self).registries(), item)
                    && final(self).summary_manager == old(self).summary_manager,
                MetricsRequest::BatchRecord(items) => (r matches Ok(MetricsResponse::Done))
                    && final(self).registries() == apply_all(old(self).registries(), items@)
                    && final(self).summary_manager == old(self).summary_manager,
                MetricsRequest::Export => (r matches Ok(MetricsResponse::ExportInfo(s)) && s@ == old(self).export_text())
                    && final(self).registries() == old(self).registries()
                    && final(self).summary_manager@ == resummarize(old(self).summary_manager@,
                        old(self).histogram_manager@, old(self).summary_key_config@),
            },
            final(self).summary_key_config == old(self).summary_key_config,
            final(self).metrics_timeline_manager == old(self).metrics_timeline_manager,
            final(self).same_settings(old(self)),
            final(self).last_log_time == old(self).last_log_time,
            final(self).last_collect_time == old(self).last_collect_time,
    {
        if !self.metrics_enable {
            return Ok(MetricsResponse::Done);
        }
        match msg {
            MetricsRequest::Record(item) => {
                self.update_item_record(item);
                Ok(MetricsResponse::Done)
            },
            MetricsRequest::BatchRecord(items) => {
                self.update_item_records(items);
                Ok(MetricsResponse::Done)
            },
            MetricsRequest::Export => {
                let v = self.export();
                match v {
                    Ok(s) => Ok(MetricsResponse::ExportInfo(s)),
                    Err(e) => Err(e),
                }
            },
        }
    }

    /// Takes in the start-up settings (none: keep the defaults). Returns whether
    /// collection starts; when it does, the histograms and their summary
    /// bindings are set up.
    pub fn inject(&mut self, config: Option<SysConfig>) -> (r: bool)
        requires
            old(self).wf(),
        ensures
            final(self).wf(),
            match config {
                Some(c) => {
                    &&& final(self).metrics_enable == c.metrics_enable
                    &&& final(self).collect_interval == c.metrics_collect_interval_second
                    &&& final(self).log_interval == c.metrics_log_interval_second
                    &&& r == c.metrics_enable
                },
                None => {
                    &&& final(self).metrics_enable == old(self).metrics_enable
                    &&& final(self).collect_interval == old(self).collect_interval
                    &&& final(self).log_interval == old(self).log_interval
                    &&& r
                },
            },
            r ==> {
                &&& final(self).histogram_manager@ == init_histograms(old(self).histogram_manager@)
                &&& final(self).summary_manager@ == init_summaries(old(self).summary_manager@)
                &&& final(self).summary_key_config@ == init_bindings(old(self).summary_key_config@)
            },
            !r ==> {
                &&& final(self).histogram_manager == old(self).histogram_manager
                &&& final(self).summary_manager == old(self).summary_manager
                &&& final(self).summary_key_config == old(self).summary_key_config
            },
            final(self).counter_manager == old(self).counter_manager,
            final(self).gauge_manager == old(self).gauge_manager,
            final(self).metrics_timeline_manager == old(self).metrics_timeline_manager,
            final(self).start_time_millis == old(self).start_time_millis,
            final(self).total_memory == old(self).total_memory,
    {
        let start = match config {
            Some(c) => {
                self.metrics_enable = c.metrics_enable;
                self.collect_interval = c.metrics_collect_interval_second;
                self.log_interval = c.metrics_log_interval_second;
                c.metrics_enable
            },
            None => true,
        };
        if start {
            self.init_histogram();
        }
        start
    }
}

} // verus!
