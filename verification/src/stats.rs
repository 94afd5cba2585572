//! Live throughput and latency statistics: running totals kept around
//! every request, and the snapshot handed out on demand.

use vstd::prelude::*;

verus! {

/// The running totals: an active-connection gauge, a cumulative
/// request counter and cumulative latency.  Never reset.
pub struct ServerStatsInner {
    pub active_connections: u32,
    pub total_requests: u64,
    pub total_latency_us: u64,
}

/// A snapshot of the statistics at one instant.  The rate field is a
/// documented stub and always zero; the average is derived from the
/// cumulative totals.
#[derive(Debug, Clone, Copy)]
pub struct ServerStats {
    pub active_connections: u32,
    pub total_requests: u64,
    pub requests_per_second: u64,
    pub avg_latency_us: u64,
}

/// The counters, free of machine widths.
pub struct StatsModel {
    pub active: int,
    pub total: int,
    pub latency: int,
}

/// The abstract value of a collector.
pub open spec fn spec_stats_model(s: ServerStatsInner) -> StatsModel {
    StatsModel {
        active: s.active_connections as int,
        total: s.total_requests as int,
        latency: s.total_latency_us as int,
    }
}

/// A fresh collector: everything zero.
pub open spec fn spec_initial_stats() -> StatsModel {
    StatsModel { active: 0, total: 0, latency: 0 }
}

/// The counters after a request enters: the gauge rises by one.
pub open spec fn spec_after_open(s: StatsModel) -> StatsModel {
    StatsModel { active: s.active + 1, total: s.total, latency: s.latency }
}

/// The counters after a request leaves with the given wall-clock
/// latency: the gauge falls by one, the totals grow.
pub open spec fn spec_after_complete(s: StatsModel, latency_us: u64) -> StatsModel {
    StatsModel { active: s.active - 1, total: s.total + 1, latency: s.latency + latency_us }
}

/// The sum of a sequence of latencies.
pub open spec fn sum_latencies(l: Seq<u64>) -> int
    decreases l.len(),
{
    if l.len() == 0 {
        0
    } else {
        sum_latencies(l.drop_last()) + l.last()
    }
}

/// The counters after a whole sequence of completed requests.
pub open spec fn spec_after_completions(s: StatsModel, l: Seq<u64>) -> StatsModel
    decreases l.len(),
{
    if l.len() == 0 {
        s
    } else {
        spec_after_complete(spec_after_completions(s, l.drop_last()), l.last())
    }
}

/// Completions add exactly their count and their summed latency to
/// the totals, whatever state they start from.
pub proof fn lemma_completion_totals(s: StatsModel, l: Seq<u64>)
    ensures
        spec_after_completions(s, l).total == s.total + l.len(),
        spec_after_completions(s, l).latency == s.latency + sum_latencies(l),
    decreases l.len(),
{
    if l.len() > 0 {
        lemma_completion_totals(s, l.drop_last());
    }
}

/// Law: after N completed requests with latencies `l`, a collector
/// that started fresh reports N total requests and the sum of the
/// latencies, so the snapshot's average latency is the sum over N.
pub proof fn lemma_stats_after_completions(l: Seq<u64>)
    ensures
        spec_after_completions(spec_initial_stats(), l).total == l.len(),
        spec_after_completions(spec_initial_stats(), l).latency == sum_latencies(l),
        l.len() > 0 ==> spec_after_completions(spec_initial_stats(), l).latency
            / spec_after_completions(spec_initial_stats(), l).total == sum_latencies(l) / (
        l.len() as int),
{
    lemma_completion_totals(spec_initial_stats(), l);
}

impl ServerStatsInner {
    /// A fresh collector with every counter at zero.
    pub fn new() -> (r: ServerStatsInner)
        ensures
            spec_stats_model(r) == spec_initial_stats(),
    {
        ServerStatsInner { active_connections: 0, total_requests: 0, total_latency_us: 0 }
    }

    /// A request entered: raise the active-connection gauge.
    pub fn on_request_start(&mut self)
        requires
            old(self).active_connections < u32::MAX,
        ensures
            spec_stats_model(*final(self)) == spec_after_open(spec_stats_model(*old(self))),
    {
        self.active_connections = self.active_connections + 1;
    }

    /// A request left, on every path alike: lower the gauge, count the
    /// request and add its wall-clock latency.
    pub fn on_request_complete(&mut self, latency_us: u64)
        requires
            old(self).active_connections > 0,
            old(self).total_requests < u64::MAX,
            old(self).total_latency_us + latency_us <= u64::MAX,
        ensures
            spec_stats_model(*final(self)) == spec_after_complete(
                spec_stats_model(*old(self)),
                latency_us,
            ),
    {
        self.active_connections = self.active_connections - 1;
        self.total_requests = self.total_requests + 1;
        self.total_latency_us = self.total_latency_us + latency_us;
    }

    /// A snapshot at the instant of the call: the gauge and total as
    /// they stand, the average latency as cumulative latency over
    /// total requests, and the stubbed rate at zero.
    pub fn snapshot(&self) -> (r: ServerStats)
        ensures
            r.active_connections == self.active_connections,
            r.total_requests == self.total_requests,
            r.requests_per_second == 0,
            self.total_requests > 0 ==> r.avg_latency_us == self.total_latency_us
                / self.total_requests,
            self.total_requests == 0 ==> r.avg_latency_us == 0,
    {
        ServerStats {
            active_connections: self.active_connections,
            total_requests: self.total_requests,
            requests_per_second: 0,
            avg_latency_us: if self.total_requests > 0 {
                self.total_latency_us / self.total_requests
            } else {
                0
            },
        }
    }
}

} // verus!
