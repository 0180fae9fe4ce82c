//! Weighted performance scorer over a fixed vocabulary of resource metrics.

use vstd::prelude::*;

verus! {

/// Resource-usage percentages, each in hundredths of a percent, each
/// optional: a metric absent from the set contributes nothing to the score.
#[derive(Clone, Copy, Debug)]
pub struct MetricSet {
    pub cpu_usage: Option<i64>,
    pub memory_usage: Option<i64>,
    pub disk_usage: Option<i64>,
    pub network_usage: Option<i64>,
}

impl MetricSet {
    /// A set with every metric absent.
    pub fn empty() -> (r: MetricSet)
        ensures
            r.cpu_usage is None,
            r.memory_usage is None,
            r.disk_usage is None,
            r.network_usage is None,
    {
        MetricSet { cpu_usage: None, memory_usage: None, disk_usage: None, network_usage: None }
    }
}

/// Headroom `100 - value` of a full-weight metric, in two-hundredths of a
/// percent (value in hundredths); an absent metric contributes 0.
pub open spec fn full_weight_headroom(value: Option<i64>) -> int {
    match value {
        Some(v) => 20000 - 2 * (v as int),
        None => 0,
    }
}

/// Headroom `100 - value / 2` of the half-weight network metric, in
/// two-hundredths of a percent; an absent metric contributes 0.
pub open spec fn half_weight_headroom(value: Option<i64>) -> int {
    match value {
        Some(v) => 20000 - (v as int),
        None => 0,
    }
}

/// Total headroom of the set, in two-hundredths of a percent: CPU, memory and
/// disk count in full, network at half weight.
pub open spec fn total_headroom(metrics: MetricSet) -> int {
    full_weight_headroom(metrics.cpu_usage) + full_weight_headroom(metrics.memory_usage)
        + full_weight_headroom(metrics.disk_usage) + half_weight_headroom(metrics.network_usage)
}

/// The performance score in hundredths of a percent: the total headroom
/// divided by the fixed divisor 4 (however many metrics are present), clamped
/// to [0, 100], and floored to the hundredth.
pub open spec fn performance_score(metrics: MetricSet) -> int {
    let headroom = total_headroom(metrics);
    if headroom <= 0 {
        0
    } else if headroom >= 80000 {
        10000
    } else {
        headroom / 8
    }
}

/// Scores a metric set: accumulates `100 - value` for CPU, memory and disk
/// usage and `100 - value / 2` for network usage, skipping absent metrics,
/// divides the sum by the fixed divisor 4, and clamps the result to the range
/// [0, 100]. All values are in hundredths of a percent.
pub fn calculate_performance_score(metrics: &MetricSet) -> (r: i64)
    ensures
        r == performance_score(*metrics),
        0 <= r <= 10000,
{
    let mut headroom: i128 = 0;
    if let Some(cpu) = metrics.cpu_usage {
        headroom = headroom + (20000 - 2 * (cpu as i128));
    }
    if let Some(ram) = metrics.memory_usage {
        headroom = headroom + (20000 - 2 * (ram as i128));
    }
    if let Some(disk) = metrics.disk_usage {
        headroom = headroom + (20000 - 2 * (disk as i128));
    }
    if let Some(net) = metrics.network_usage {
        headroom = headroom + (20000 - (net as i128));
    }
    if headroom <= 0 {
        0
    } else if headroom >= 80000 {
        10000
    } else {
        let positive: u64 = headroom as u64;
        (positive / 8) as i64
    }
}

} // verus!
