//! Heartbeat monitoring: pings, failures, and whether the system is still healthy.
use vstd::prelude::*;

verus! {

/// Status of the heartbeat monitor.
#[derive(Debug, Clone)]
pub struct HeartbeatStatus {
    pub last_ping: String,
    pub consecutive_successes: u32,
    pub failures: u32,
    pub total_pings: u32,
    pub healthy: bool,
    pub uptime_secs: u64,
}

/// Counts pings and failures; healthy while failures stay under the limit.
pub struct HeartbeatMonitor {
    interval_secs: u64,
    max_failures: u32,
    last_ping: String,
    successes: u32,
    failures: u32,
    total: u32,
}

impl HeartbeatMonitor {
    /// When the last ping came (RFC 3339), empty before the first.
    pub closed spec fn last_ping_view(&self) -> Seq<char> {
        self.last_ping@
    }

    /// Pings so far.
    pub closed spec fn successes_view(&self) -> u32 {
        self.successes
    }

    /// Failures so far.
    pub closed spec fn failures_view(&self) -> u32 {
        self.failures
    }

    /// All pings so far.
    pub closed spec fn total_view(&self) -> u32 {
        self.total
    }

    /// The failure limit.
    pub closed spec fn limit(&self) -> u32 {
        self.max_failures
    }

    /// The ping interval in seconds.
    pub closed spec fn interval_view(&self) -> u64 {
        self.interval_secs
    }

    pub fn new(interval_secs: u64, max_failures: u32) -> (m: Self)
        ensures
            m.interval_view() == interval_secs,
            m.limit() == max_failures,
            m.last_ping_view().len() == 0,
            m.successes_view() == 0,
            m.failures_view() == 0,
            m.total_view() == 0,
    {
        HeartbeatMonitor {
            interval_secs,
            max_failures,
            last_ping: String::new(),
            successes: 0,
            failures: 0,
            total: 0,
        }
    }

    /// Records a ping at `now` (RFC 3339); the status reads `uptime_secs`.
    pub fn ping(&mut self, now: &str, uptime_secs: u64) -> (s: HeartbeatStatus)
        requires
            old(self).successes_view() < u32::MAX,
            old(self).total_view() < u32::MAX,
        ensures
            final(self).last_ping_view() == now@,
            final(self).successes_view() == old(self).successes_view() + 1,
            final(self).total_view() == old(self).total_view() + 1,
            final(self).failures_view() == old(self).failures_view(),
            final(self).limit() == old(self).limit(),
            final(self).interval_view() == old(self).interval_view(),
            final(self).reports(s, uptime_secs),
    {
        self.last_ping = now.to_owned();
        self.successes = self.successes + 1;
        self.total = self.total + 1;
        self.status(uptime_secs)
    }

    /// Records a failure; the status reads `uptime_secs`.
    pub fn fail(&mut self, uptime_secs: u64) -> (s: HeartbeatStatus)
        requires
            old(self).failures_view() < u32::MAX,
        ensures
            final(self).failures_view() == old(self).failures_view() + 1,
            final(self).last_ping_view() == old(self).last_ping_view(),
            final(self).successes_view() == old(self).successes_view(),
            final(self).total_view() == old(self).total_view(),
            final(self).limit() == old(self).limit(),
            final(self).interval_view() == old(self).interval_view(),
            final(self).reports(s, uptime_secs),
    {
        self.failures = self.failures + 1;
        self.status(uptime_secs)
    }

    /// `s` is the monitor's status at `uptime_secs`: `never` before the first ping,
    /// healthy while failures are under the limit.
    pub open spec fn reports(&self, s: HeartbeatStatus, uptime_secs: u64) -> bool {
        &&& s.last_ping@ == (if self.last_ping_view().len() == 0 {
            "never"@
        } else {
            self.last_ping_view()
        })
        &&& s.consecutive_successes == self.successes_view()
        &&& s.failures == self.failures_view()
        &&& s.total_pings == self.total_view()
        &&& s.healthy == (self.failures_view() < self.limit())
        &&& s.uptime_secs == uptime_secs
    }

    /// The status at `uptime_secs` (see `reports`).
    pub fn status(&self, uptime_secs: u64) -> (s: HeartbeatStatus)
        ensures
            self.reports(s, uptime_secs),
    {
        HeartbeatStatus {
            last_ping: if self.last_ping.as_str().is_empty() {
                "never".to_owned()
            } else {
                self.last_ping.clone()
            },
            consecutive_successes: self.successes,
            failures: self.failures,
            total_pings: self.total,
            healthy: self.failures < self.max_failures,
            uptime_secs,
        }
    }

    pub fn interval(&self) -> (n: u64)
        ensures
            n == self.interval_view(),
    {
        self.interval_secs
    }
}

} // verus!
