use vstd::prelude::*;

verus! {

/// Number of metric series known to the engine.
pub const KEY_COUNT: usize = 17;

/// Identifier of one metric series; every registry is indexed by it.
#[derive(Clone, Copy, Debug, PartialEq, Eq, Structural, Hash, PartialOrd, Ord)]
pub enum MetricKey {
    SysTotalMemory,
    AppCpuUsage,
    AppRssMemory,
    AppVmsMemory,
    AppMemoryUsage,
    ProcessStartTimeSeconds,
    Requests,
    HttpRequestTotalCount,
    GrpcRequestTotalCount,
    NamingServiceSize,
    NamingInstanceSize,
    ConfigDataSize,
    GrpcConnSize,
    GrpcRequestHandleRtHistogram,
    GrpcRequestHandleRtSummary,
    HttpRequestHandleRtHistogram,
    HttpRequestHandleRtSummary,
}

/// Position of a key in the registries, which is also the export order.
pub open spec fn key_index(k: MetricKey) -> int {
    match k {
        MetricKey::SysTotalMemory => 0,
        MetricKey::AppCpuUsage => 1,
        MetricKey::AppRssMemory => 2,
        MetricKey::AppVmsMemory => 3,
        MetricKey::AppMemoryUsage => 4,
        MetricKey::ProcessStartTimeSeconds => 5,
        MetricKey::Requests => 6,
        MetricKey::HttpRequestTotalCount => 7,
        MetricKey::GrpcRequestTotalCount => 8,
        MetricKey::NamingServiceSize => 9,
        MetricKey::NamingInstanceSize => 10,
        MetricKey::ConfigDataSize => 11,
        MetricKey::GrpcConnSize => 12,
        MetricKey::GrpcRequestHandleRtHistogram => 13,
        MetricKey::GrpcRequestHandleRtSummary => 14,
        MetricKey::HttpRequestHandleRtHistogram => 15,
        MetricKey::HttpRequestHandleRtSummary => 16,
    }
}

/// The key whose position is `i`.
pub open spec fn key_at(i: int) -> MetricKey {
    if i == 0 {
        MetricKey::SysTotalMemory
    } else if i == 1 {
        MetricKey::AppCpuUsage
    } else if i == 2 {
        MetricKey::AppRssMemory
    } else if i == 3 {
        MetricKey::AppVmsMemory
    } else if i == 4 {
        MetricKey::AppMemoryUsage
    } else if i == 5 {
        MetricKey::ProcessStartTimeSeconds
    } else if i == 6 {
        MetricKey::Requests
    } else if i == 7 {
        MetricKey::HttpRequestTotalCount
    } else if i == 8 {
        MetricKey::GrpcRequestTotalCount
    } else if i == 9 {
        MetricKey::NamingServiceSize
    } else if i == 10 {
        MetricKey::NamingInstanceSize
    } else if i == 11 {
        MetricKey::ConfigDataSize
    } else if i == 12 {
        MetricKey::GrpcConnSize
    } else if i == 13 {
        MetricKey::GrpcRequestHandleRtHistogram
    } else if i == 14 {
        MetricKey::GrpcRequestHandleRtSummary
    } else if i == 15 {
        MetricKey::HttpRequestHandleRtHistogram
    } else {
        MetricKey::HttpRequestHandleRtSummary
    }
}

/// Name of the series in exported text.
pub open spec fn key_name(k: MetricKey) -> Seq<char> {
    match k {
        MetricKey::SysTotalMemory => seq!['s', 'y', 's', '_', 't', 'o', 't', 'a', 'l', '_', 'm', 'e', 'm', 'o', 'r', 'y', '_', 'm', 'b'],
        MetricKey::AppCpuUsage => seq!['a', 'p', 'p', '_', 'c', 'p', 'u', '_', 'u', 's', 'a', 'g', 'e'],
        MetricKey::AppRssMemory => seq!['a', 'p', 'p', '_', 'r', 's', 's', '_', 'm', 'e', 'm', 'o', 'r', 'y', '_', 'm', 'b'],
        MetricKey::AppVmsMemory => seq!['a', 'p', 'p', '_', 'v', 'm', 's', '_', 'm', 'e', 'm', 'o', 'r', 'y', '_', 'm', 'b'],
        MetricKey::AppMemoryUsage => seq!['a', 'p', 'p', '_', 'm', 'e', 'm', 'o', 'r', 'y', '_', 'u', 's', 'a', 'g', 'e'],
        MetricKey::ProcessStartTimeSeconds => seq!['p', 'r', 'o', 'c', 'e', 's', 's', '_', 's', 't', 'a', 'r', 't', '_', 't', 'i', 'm', 'e', '_', 's', 'e', 'c', 'o', 'n', 'd', 's'],
        MetricKey::Requests => seq!['r', 'e', 'q', 'u', 'e', 's', 't', 's'],
        MetricKey::HttpRequestTotalCount => seq!['h', 't', 't', 'p', '_', 'r', 'e', 'q', 'u', 'e', 's', 't', '_', 't', 'o', 't', 'a', 'l', '_', 'c', 'o', 'u', 'n', 't'],
        MetricKey::GrpcRequestTotalCount => seq!['g', 'r', 'p', 'c', '_', 'r', 'e', 'q', 'u', 'e', 's', 't', '_', 't', 'o', 't', 'a', 'l', '_', 'c', 'o', 'u', 'n', 't'],
        MetricKey::NamingServiceSize => seq!['n', 'a', 'm', 'i', 'n', 'g', '_', 's', 'e', 'r', 'v', 'i', 'c', 'e', '_', 's', 'i', 'z', 'e'],
        MetricKey::NamingInstanceSize => seq!['n', 'a', 'm', 'i', 'n', 'g', '_', 'i', 'n', 's', 't', 'a', 'n', 'c', 'e', '_', 's', 'i', 'z', 'e'],
        MetricKey::ConfigDataSize => seq!['c', 'o', 'n', 'f', 'i', 'g', '_', 'd', 'a', 't', 'a', '_', 's', 'i', 'z', 'e'],
        MetricKey::GrpcConnSize => seq!['g', 'r', 'p', 'c', '_', 'c', 'o', 'n', 'n', '_', 's', 'i', 'z', 'e'],
        MetricKey::GrpcRequestHandleRtHistogram => seq!['g', 'r', 'p', 'c', '_', 'r', 'e', 'q', 'u', 'e', 's', 't', '_', 'h', 'a', 'n', 'd', 'l', 'e', '_', 'r', 't', '_', 'h', 'i', 's', 't', 'o', 'g', 'r', 'a', 'm'],
        MetricKey::GrpcRequestHandleRtSummary => seq!['g', 'r', 'p', 'c', '_', 'r', 'e', 'q', 'u', 'e', 's', 't', '_', 'h', 'a', 'n', 'd', 'l', 'e', '_', 'r', 't', '_', 's', 'u', 'm', 'm', 'a', 'r', 'y'],
        MetricKey::HttpRequestHandleRtHistogram => seq!['h', 't', 't', 'p', '_', 'r', 'e', 'q', 'u', 'e', 's', 't', '_', 'h', 'a', 'n', 'd', 'l', 'e', '_', 'r', 't', '_', 'h', 'i', 's', 't', 'o', 'g', 'r', 'a', 'm'],
        MetricKey::HttpRequestHandleRtSummary => seq!['h', 't', 't', 'p', '_', 'r', 'e', 'q', 'u', 'e', 's', 't', '_', 'h', 'a', 'n', 'd', 'l', 'e', '_', 'r', 't', '_', 's', 'u', 'm', 'm', 'a', 'r', 'y'],
    }
}

pub proof fn lemma_key_index_round_trip(k: MetricKey)
    ensures
        0 <= key_index(k) < KEY_COUNT,
        key_at(key_index(k)) == k,
{
}

impl MetricKey {
    pub fn index(&self) -> (r: usize)
        ensures
            r as int == key_index(*self),
            r < KEY_COUNT,
    {
        match self {
            MetricKey::SysTotalMemory => 0,
            MetricKey::AppCpuUsage => 1,
            MetricKey::AppRssMemory => 2,
            MetricKey::AppVmsMemory => 3,
            MetricKey::AppMemoryUsage => 4,
            MetricKey::ProcessStartTimeSeconds => 5,
            MetricKey::Requests => 6,
            MetricKey::HttpRequestTotalCount => 7,
            MetricKey::GrpcRequestTotalCount => 8,
            MetricKey::NamingServiceSize => 9,
            MetricKey::NamingInstanceSize => 10,
            MetricKey::ConfigDataSize => 11,
            MetricKey::GrpcConnSize => 12,
            MetricKey::GrpcRequestHandleRtHistogram => 13,
            MetricKey::GrpcRequestHandleRtSummary => 14,
            MetricKey::HttpRequestHandleRtHistogram => 15,
            MetricKey::HttpRequestHandleRtSummary => 16,
        }
    }

    /// The key at position `i`.
    pub fn from_index(i: usize) -> (r: MetricKey)
        requires
            i < KEY_COUNT,
        ensures
            r == key_at(i as int),
    {
        if i == 0 {
            MetricKey::SysTotalMemory
        } else if i == 1 {
            MetricKey::AppCpuUsage
        } else if i == 2 {
            MetricKey::AppRssMemory
        } else if i == 3 {
            MetricKey::AppVmsMemory
        } else if i == 4 {
            MetricKey::AppMemoryUsage
        } else if i == 5 {
            MetricKey::ProcessStartTimeSeconds
        } else if i == 6 {
            MetricKey::Requests
        } else if i == 7 {
            MetricKey::HttpRequestTotalCount
        } else if i == 8 {
            MetricKey::GrpcRequestTotalCount
        } else if i == 9 {
            MetricKey::NamingServiceSize
        } else if i == 10 {
            MetricKey::NamingInstanceSize
        } else if i == 11 {
            MetricKey::ConfigDataSize
        } else if i == 12 {
            MetricKey::GrpcConnSize
        } else if i == 13 {
            MetricKey::GrpcRequestHandleRtHistogram
        } else if i == 14 {
            MetricKey::GrpcRequestHandleRtSummary
        } else if i == 15 {
            MetricKey::HttpRequestHandleRtHistogram
        } else {
            MetricKey::HttpRequestHandleRtSummary
        }
    }

    pub fn name(&self) -> (r: Vec<char>)
        ensures
            r@ == key_name(*self),
    {
        match self {
            MetricKey::SysTotalMemory => vec!['s', 'y', 's', '_', 't', 'o', 't', 'a', 'l', '_', 'm', 'e', 'm', 'o', 'r', 'y', '_', 'm', 'b'],
            MetricKey::AppCpuUsage => vec!['a', 'p', 'p', '_', 'c', 'p', 'u', '_', 'u', 's', 'a', 'g', 'e'],
            MetricKey::AppRssMemory => vec!['a', 'p', 'p', '_', 'r', 's', 's', '_', 'm', 'e', 'm', 'o', 'r', 'y', '_', 'm', 'b'],
            MetricKey::AppVmsMemory => vec!['a', 'p', 'p', '_', 'v', 'm', 's', '_', 'm', 'e', 'm', 'o', 'r', 'y', '_', 'm', 'b'],
            MetricKey::AppMemoryUsage => vec!['a', 'p', 'p', '_', 'm', 'e', 'm', 'o', 'r', 'y', '_', 'u', 's', 'a', 'g', 'e'],
            MetricKey::ProcessStartTimeSeconds => vec!['p', 'r', 'o', 'c', 'e', 's', 's', '_', 's', 't', 'a', 'r', 't', '_', 't', 'i', 'm', 'e', '_', 's', 'e', 'c', 'o', 'n', 'd', 's'],
            MetricKey::Requests => vec!['r', 'e', 'q', 'u', 'e', 's', 't', 's'],
            MetricKey::HttpRequestTotalCount => vec!['h', 't', 't', 'p', '_', 'r', 'e', 'q', 'u', 'e', 's', 't', '_', 't', 'o', 't', 'a', 'l', '_', 'c', 'o', 'u', 'n', 't'],
            MetricKey::GrpcRequestTotalCount => vec!['g', 'r', 'p', 'c', '_', 'r', 'e', 'q', 'u', 'e', 's', 't', '_', 't', 'o', 't', 'a', 'l', '_', 'c', 'o', 'u', 'n', 't'],
            MetricKey::NamingServiceSize => vec!['n', 'a', 'm', 'i', 'n', 'g', '_', 's', 'e', 'r', 'v', 'i', 'c', 'e', '_', 's', 'i', 'z', 'e'],
            MetricKey::NamingInstanceSize => vec!['n', 'a', 'm', 'i', 'n', 'g', '_', 'i', 'n', 's', 't', 'a', 'n', 'c', 'e', '_', 's', 'i', 'z', 'e'],
            MetricKey::ConfigDataSize => vec!['c', 'o', 'n', 'f', 'i', 'g', '_', 'd', 'a', 't', 'a', '_', 's', 'i', 'z', 'e'],
            MetricKey::GrpcConnSize => vec!['g', 'r', 'p', 'c', '_', 'c', 'o', 'n', 'n', '_', 's', 'i', 'z', 'e'],
            MetricKey::GrpcRequestHandleRtHistogram => vec!['g', 'r', 'p', 'c', '_', 'r', 'e', 'q', 'u', 'e', 's', 't', '_', 'h', 'a', 'n', 'd', 'l', 'e', '_', 'r', 't', '_', 'h', 'i', 's', 't', 'o', 'g', 'r', 'a', 'm'],
            MetricKey::GrpcRequestHandleRtSummary => vec!['g', 'r', 'p', 'c', '_', 'r', 'e', 'q', 'u', 'e', 's', 't', '_', 'h', 'a', 'n', 'd', 'l', 'e', '_', 'r', 't', '_', 's', 'u', 'm', 'm', 'a', 'r', 'y'],
            MetricKey::HttpRequestHandleRtHistogram => vec!['h', 't', 't', 'p', '_', 'r', 'e', 'q', 'u', 'e', 's', 't', '_', 'h', 'a', 'n', 'd', 'l', 'e', '_', 'r', 't', '_', 'h', 'i', 's', 't', 'o', 'g', 'r', 'a', 'm'],
            MetricKey::HttpRequestHandleRtSummary => vec!['h', 't', 't', 'p', '_', 'r', 'e', 'q', 'u', 'e', 's', 't', '_', 'h', 'a', 'n', 'd', 'l', 'e', '_', 'r', 't', '_', 's', 'u', 'm', 'm', 'a', 'r', 'y'],
        }
    }
}

} // verus!
