use metrics_engine::collector::{do_peek_metrics, MetricsManager};
use metrics_engine::key::MetricKey;
use metrics_engine::model::{
    MetricsItem, MetricsRecord, MetricsRequest, MetricsResponse, ProcessSample, QueryError, SysConfig,
};
use metrics_engine::registry::HistogramValue;

fn item(k: MetricKey, r: MetricsRecord) -> MetricsItem {
    MetricsItem { metrics_type: k, record: r }
}

fn enabled() -> MetricsManager {
    let mut m = MetricsManager::new(1_000, 8 * 1024 * 1024 * 1024);
    assert!(m.inject(Some(SysConfig {
        metrics_enable: true,
        metrics_collect_interval_second: 15,
        metrics_log_interval_second: 60,
    })));
    m
}

fn export_text(m: &mut MetricsManager) -> String {
    match m.handle(MetricsRequest::Export) {
        Ok(MetricsResponse::ExportInfo(s)) => s,
        _ => panic!("export failed"),
    }
}

#[test]
fn counter_is_sum_of_increments() {
    let mut m = enabled();
    m.handle(MetricsRequest::Record(item(MetricKey::Requests, MetricsRecord::CounterInc(2)))).unwrap();
    m.handle(MetricsRequest::BatchRecord(vec![
        item(MetricKey::Requests, MetricsRecord::CounterInc(5)),
        item(MetricKey::GrpcRequestTotalCount, MetricsRecord::CounterInc(7)),
    ]))
    .unwrap();
    let round = vec![Some(Ok(vec![item(MetricKey::Requests, MetricsRecord::CounterInc(10))])), None, None];
    m.load_metrics(round, None, 20_000);
    m.handle(MetricsRequest::Record(item(MetricKey::Requests, MetricsRecord::CounterInc(1)))).unwrap();
    assert_eq!(m.counter_manager.value(&MetricKey::Requests), Some(18));
    assert_eq!(m.counter_manager.value(&MetricKey::GrpcRequestTotalCount), Some(7));
    assert_eq!(m.counter_manager.value(&MetricKey::HttpRequestTotalCount), None);
}

#[test]
fn counter_saturates_at_max() {
    let mut m = enabled();
    m.update_item_record(item(MetricKey::Requests, MetricsRecord::CounterInc(u64::MAX - 1)));
    m.update_item_record(item(MetricKey::Requests, MetricsRecord::CounterInc(5)));
    assert_eq!(m.counter_manager.value(&MetricKey::Requests), Some(u64::MAX));
}

#[test]
fn gauge_keeps_last_value() {
    let mut m = enabled();
    m.handle(MetricsRequest::BatchRecord(vec![
        item(MetricKey::ConfigDataSize, MetricsRecord::Gauge(10)),
        item(MetricKey::ConfigDataSize, MetricsRecord::Gauge(-4)),
        item(MetricKey::NamingServiceSize, MetricsRecord::Gauge(9)),
    ]))
    .unwrap();
    m.handle(MetricsRequest::Record(item(MetricKey::ConfigDataSize, MetricsRecord::Gauge(3)))).unwrap();
    assert_eq!(m.gauge_manager.value(&MetricKey::ConfigDataSize), Some(3));
    assert_eq!(m.gauge_manager.value(&MetricKey::NamingServiceSize), Some(9));
}

#[test]
fn summary_recompute_is_idempotent() {
    let mut m = enabled();
    m.update_item_record(item(MetricKey::GrpcRequestHandleRtHistogram, MetricsRecord::HistogramRecords(vec![100, 200, 2000])));
    m.reset_summary();
    let once: Vec<Option<Vec<u64>>> = m.summary_manager.data_map.iter().map(|s| s.as_ref().map(|v| v.values.clone())).collect();
    m.reset_summary();
    let twice: Vec<Option<Vec<u64>>> = m.summary_manager.data_map.iter().map(|s| s.as_ref().map(|v| v.values.clone())).collect();
    assert_eq!(once, twice);
    let a = export_text(&mut m);
    let b = export_text(&mut m);
    assert_eq!(a, b);
}

#[test]
fn summary_quantiles_from_histogram() {
    let mut m = enabled();
    m.update_item_record(item(MetricKey::GrpcRequestHandleRtHistogram, MetricsRecord::HistogramRecords(vec![100, 200, 2000])));
    m.reset_summary();
    let s = m.summary_manager.data_map[MetricKey::GrpcRequestHandleRtSummary.index()].as_ref().unwrap();
    assert_eq!(s.values, vec![250, 250, 3000, 3000, 3000, 3000, 3000]);
    assert_eq!(s.sum, 2300);
    assert_eq!(s.count, 3);
}

#[test]
fn empty_histogram_quantiles_are_zero() {
    let h = HistogramValue::empty();
    assert_eq!(h.quantile(500), 0);
    assert_eq!(h.total(), 0);
    assert_eq!(h.summary().values, vec![0; 7]);
}

#[test]
fn histogram_buckets_by_bound() {
    assert_eq!(HistogramValue::bucket(0), 0);
    assert_eq!(HistogramValue::bucket(250), 0);
    assert_eq!(HistogramValue::bucket(251), 1);
    assert_eq!(HistogramValue::bucket(500_000), 10);
    assert_eq!(HistogramValue::bucket(500_001), 11);
    let mut h = HistogramValue::empty();
    h.observe(900_000);
    assert_eq!(h.quantile(1000), 500_000);
    assert_eq!(h.counts[11], 1);
    assert_eq!(h.sum, 900_000);
}

#[test]
fn least_snapshot_on_every_tick() {
    let mut m = enabled();
    for t in 0..3u64 {
        m.load_metrics(vec![None, None, None], None, 100_000 + t * 15_000);
    }
    assert_eq!(m.metrics_timeline_manager.least_list.len(), 3);
    for t in 3..100u64 {
        m.load_metrics(vec![None, None, None], None, 100_000 + t * 15_000);
    }
    assert_eq!(m.metrics_timeline_manager.least_list.len(), 60);
    let last = m.metrics_timeline_manager.least_list.last().unwrap();
    assert_eq!(last.snapshot_time, 100_000 + 99 * 15_000);
}

#[test]
fn minute_snapshot_once_in_seventy_seconds() {
    let mut m = enabled();
    let mut t: u64 = 15_000;
    while t <= 70_000 {
        m.load_metrics(vec![None, None, None], None, t);
        t += 15_000;
    }
    assert_eq!(m.metrics_timeline_manager.least_list.len(), 4);
    assert_eq!(m.metrics_timeline_manager.minute_list.len(), 1);
    assert_eq!(m.metrics_timeline_manager.last_minute_record_time(), Some(15_000));
    m.load_metrics(vec![None, None, None], None, 74_799);
    assert_eq!(m.metrics_timeline_manager.minute_list.len(), 1);
    m.load_metrics(vec![None, None, None], None, 74_800);
    assert_eq!(m.metrics_timeline_manager.minute_list.len(), 2);
}

#[test]
fn snapshot_is_independent_copy() {
    let mut m = enabled();
    m.update_item_record(item(MetricKey::Requests, MetricsRecord::CounterInc(1)));
    m.record_least_snapshot(5);
    m.update_item_record(item(MetricKey::Requests, MetricsRecord::CounterInc(1)));
    let snap = &m.metrics_timeline_manager.least_list[0];
    assert_eq!(snap.counter_data_map[MetricKey::Requests.index()], Some(1));
    assert_eq!(m.counter_manager.value(&MetricKey::Requests), Some(2));
}

#[test]
fn failed_query_discards_whole_round() {
    let mut m = enabled();
    let round = vec![
        Some(Ok(vec![item(MetricKey::Requests, MetricsRecord::CounterInc(4))])),
        Some(Err(QueryError::Producer)),
        Some(Ok(vec![item(MetricKey::GrpcConnSize, MetricsRecord::Gauge(8))])),
    ];
    m.load_metrics(round, None, 30_000);
    assert_eq!(m.counter_manager.value(&MetricKey::Requests), None);
    assert_eq!(m.gauge_manager.value(&MetricKey::GrpcConnSize), None);
    assert_eq!(m.metrics_timeline_manager.least_list.len(), 1);
}

#[test]
fn peek_joins_items_and_reports_first_failure() {
    let ok = do_peek_metrics(vec![
        Some(Ok(vec![item(MetricKey::Requests, MetricsRecord::CounterInc(1))])),
        None,
        Some(Ok(vec![item(MetricKey::Requests, MetricsRecord::CounterInc(2)), item(MetricKey::Requests, MetricsRecord::CounterInc(3))])),
    ]);
    assert_eq!(ok.unwrap().len(), 3);
    let err = do_peek_metrics(vec![None, Some(Err(QueryError::Mailbox)), Some(Err(QueryError::Producer))]);
    assert_eq!(err.err(), Some(QueryError::Mailbox));
    assert_eq!(do_peek_metrics(vec![]).unwrap().len(), 0);
}

#[test]
fn export_lists_written_keys() {
    let mut m = enabled();
    m.update_item_record(item(MetricKey::GrpcConnSize, MetricsRecord::Gauge(-5)));
    m.update_item_record(item(MetricKey::HttpRequestHandleRtHistogram, MetricsRecord::HistogramRecord(300)));
    let text = export_text(&mut m);
    assert!(text.contains("# TYPE grpc_conn_size gauge\ngrpc_conn_size -5\n"));
    assert!(text.contains("# TYPE sys_total_memory_mb gauge\nsys_total_memory_mb 8192\n"));
    assert!(text.contains("http_request_handle_rt_histogram_bucket{le=\"250\"} 0\n"));
    assert!(text.contains("http_request_handle_rt_histogram_bucket{le=\"500\"} 1\n"));
    assert!(text.contains("http_request_handle_rt_histogram_bucket{le=\"+Inf\"} 1\n"));
    assert!(text.contains("http_request_handle_rt_histogram_sum 300\nhttp_request_handle_rt_histogram_count 1\n"));
    assert!(text.contains("http_request_handle_rt_summary{quantile=\"0.5\"} 500\n"));
    assert!(text.contains("grpc_request_handle_rt_summary{quantile=\"0.95\"} 0\n"));
    assert!(!text.contains("requests"));
    m.update_item_record(item(MetricKey::HttpRequestHandleRtHistogram, MetricsRecord::HistogramRecord(4000)));
    let text = export_text(&mut m);
    assert!(text.contains("http_request_handle_rt_summary{quantile=\"1\"} 5000\n"));
}

#[test]
fn export_counts_requests() {
    let mut m = enabled();
    assert_eq!(m.hb(), 15);
    for _ in 0..3 {
        m.handle(MetricsRequest::Record(item(MetricKey::Requests, MetricsRecord::CounterInc(1)))).unwrap();
    }
    let text = export_text(&mut m);
    assert!(text.starts_with("# TYPE requests counter\nrequests 3\n"));
}

#[test]
fn disabled_metrics_do_nothing() {
    let mut m = MetricsManager::new(0, 0);
    assert!(!m.inject(Some(SysConfig {
        metrics_enable: false,
        metrics_collect_interval_second: 15,
        metrics_log_interval_second: 60,
    })));
    let r = m.handle(MetricsRequest::Record(item(MetricKey::Requests, MetricsRecord::CounterInc(1))));
    assert!(matches!(r, Ok(MetricsResponse::Done)));
    let r = m.handle(MetricsRequest::Export);
    assert!(matches!(r, Ok(MetricsResponse::Done)));
    assert_eq!(m.counter_manager.value(&MetricKey::Requests), None);
}

#[test]
fn missing_config_keeps_defaults_and_starts() {
    let mut m = MetricsManager::new(0, 0);
    assert!(m.inject(None));
    assert_eq!(m.collect_interval, 15);
    assert_eq!(m.log_interval, 60);
    assert_eq!(m.summary_key_config.len(), 2);
}

#[test]
fn resource_sample_sets_gauges() {
    let mut m = MetricsManager::new(1_000, 4 * 1024 * 1024 * 1024);
    let s = ProcessSample { cpu_usage_centi: 1234, memory_bytes: 512 * 1024 * 1024, virtual_memory_bytes: 3 * 1024 * 1024 * 1024 };
    m.load_sys_metrics(Some(s), 61_500);
    assert_eq!(m.gauge_manager.value(&MetricKey::ProcessStartTimeSeconds), Some(60));
    assert_eq!(m.gauge_manager.value(&MetricKey::AppCpuUsage), Some(1234));
    assert_eq!(m.gauge_manager.value(&MetricKey::AppRssMemory), Some(512));
    assert_eq!(m.gauge_manager.value(&MetricKey::AppVmsMemory), Some(3072));
    assert_eq!(m.gauge_manager.value(&MetricKey::AppMemoryUsage), Some(1250));
    assert_eq!(m.gauge_manager.value(&MetricKey::SysTotalMemory), Some(4096));
    m.load_sys_metrics(None, 90_000);
    assert_eq!(m.gauge_manager.value(&MetricKey::AppCpuUsage), Some(1234));
    assert_eq!(m.last_collect_time, 90_000);
}

#[test]
fn log_line_rate_limited() {
    let mut m = MetricsManager::new(0, 0);
    assert!(m.print_metrics(59_000));
    assert!(!m.print_metrics(117_999));
    assert!(m.print_metrics(118_000));
    assert_eq!(m.last_log_time, 118_000);
}

#[test]
fn empty_histogram_batch_changes_nothing() {
    let mut m = MetricsManager::new(0, 0);
    m.update_item_record(item(MetricKey::HttpRequestHandleRtHistogram, MetricsRecord::HistogramRecords(vec![])));
    assert!(m.histogram_manager.get_value(&MetricKey::HttpRequestHandleRtHistogram).is_none());
    let text = export_text(&mut m);
    assert!(!text.contains("http_request_handle_rt_histogram"));
}

#[test]
fn histogram_batch_equals_single_records() {
    let mut a = MetricsManager::new(0, 0);
    let mut b = MetricsManager::new(0, 0);
    a.update_item_record(item(MetricKey::GrpcRequestHandleRtHistogram, MetricsRecord::HistogramRecords(vec![300, 7, 600_000])));
    for v in [300u64, 7, 600_000] {
        b.update_item_record(item(MetricKey::GrpcRequestHandleRtHistogram, MetricsRecord::HistogramRecord(v)));
    }
    let ha = a.histogram_manager.get_value(&MetricKey::GrpcRequestHandleRtHistogram).unwrap();
    let hb = b.histogram_manager.get_value(&MetricKey::GrpcRequestHandleRtHistogram).unwrap();
    assert_eq!(ha.counts, hb.counts);
    assert_eq!(ha.sum, 600_307);
    assert_eq!(hb.sum, 600_307);
    assert_eq!(ha.total(), 3);
}

#[test]
fn counter_total_ignores_batch_order() {
    let items = |order: [u64; 3]| -> Vec<MetricsItem> {
        order.iter().map(|v| item(MetricKey::Requests, MetricsRecord::CounterInc(*v))).collect()
    };
    let mut a = enabled();
    let mut b = enabled();
    a.handle(MetricsRequest::BatchRecord(items([1, 20, 300]))).unwrap();
    b.handle(MetricsRequest::BatchRecord(items([300, 1, 20]))).unwrap();
    assert_eq!(a.counter_manager.data_map, b.counter_manager.data_map);
    assert_eq!(a.counter_manager.value(&MetricKey::Requests), Some(321));
}
