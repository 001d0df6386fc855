use vstd::prelude::*;
use crate::key::MetricKey;

verus! {

/// One update of one series.
#[derive(Clone, Debug)]
pub enum MetricsRecord {
    /// Adds to a counter.
    CounterInc(u64),
    /// Replaces a gauge.
    Gauge(i64),
    /// Observes one histogram value (microseconds).
    HistogramRecord(u64),
    /// Observes several histogram values, in order.
    HistogramRecords(Vec<u64>),
}

/// One update instruction: a series and what happens to it.
#[derive(Clone, Debug)]
pub struct MetricsItem {
    pub metrics_type: MetricKey,
    pub record: MetricsRecord,
}

/// A request from an in-process caller.
#[derive(Clone, Debug)]
pub enum MetricsRequest {
    Record(MetricsItem),
    BatchRecord(Vec<MetricsItem>),
    Export,
}

/// The answer to a `MetricsRequest`.
#[derive(Clone, Debug)]
pub enum MetricsResponse {
    Done,
    ExportInfo(String),
}

/// Why a producer's query failed.
#[derive(Clone, Copy, Debug, PartialEq, Eq, Structural)]
pub enum QueryError {
    /// The message could not be delivered to the producer.
    Mailbox,
    /// The producer answered with an error.
    Producer,
}

/// Why an export could not be produced.
#[derive(Clone, Copy, Debug, PartialEq, Eq, Structural)]
pub enum ExportError {
    /// The text could not be encoded.
    Encoding,
}

/// Settings read once at start-up.
#[derive(Clone, Copy, Debug, PartialEq, Eq, Structural)]
pub struct SysConfig {
    pub metrics_enable: bool,
    pub metrics_collect_interval_second: u64,
    pub metrics_log_interval_second: u64,
}

/// One sample of the process's resource use.
#[derive(Clone, Copy, Debug, PartialEq, Eq, Structural)]
pub struct ProcessSample {
    /// CPU usage in hundredths of a percent.
    pub cpu_usage_centi: u64,
    /// Resident memory in bytes.
    pub memory_bytes: u64,
    /// Virtual memory in bytes.
    pub virtual_memory_bytes: u64,
}

} // verus!
