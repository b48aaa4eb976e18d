//! Subsystem health monitoring: heartbeats, failure reports and snapshots.
use vstd::prelude::*;
use crate::clock::now_nanos;
use crate::text::eq_str;

verus! {

/// Health of a single subsystem; the heartbeat is in nanoseconds since the epoch.
#[derive(Debug, Clone)]
pub struct SubsystemHealth {
    pub name: String,
    pub healthy: bool,
    pub last_heartbeat: i128,
    pub error_count: u64,
    pub message: String,
}

impl SubsystemHealth {
    /// A healthy subsystem `name` with its first heartbeat at `now`.
    pub fn new(name: &str, now: i128) -> (h: Self)
        ensures
            h.name@ == name@,
            h.healthy,
            h.last_heartbeat == now,
            h.error_count == 0,
            h.message@ == "OK"@,
    {
        SubsystemHealth { name: name.to_owned(), healthy: true, last_heartbeat: now, error_count: 0, message: "OK".to_owned() }
    }
}

/// A point-in-time snapshot of overall system health.
#[derive(Debug, Clone)]
pub struct HealthSnapshot {
    pub timestamp: i128,
    pub overall_healthy: bool,
    pub subsystems: Vec<SubsystemHealth>,
    pub uptime_seconds: u64,
}

/// Whole seconds from `start` to `now` (nanoseconds), zero when `now` is earlier
/// and at most `u64::MAX`.
pub open spec fn uptime_secs(now: i128, start: i128) -> int {
    let d = now - start;
    if d <= 0 {
        0
    } else {
        if d / 1_000_000_000 > u64::MAX {
            u64::MAX as int
        } else {
            d / 1_000_000_000
        }
    }
}

/// Whole seconds from `start` to `now` (see `uptime_secs`).
fn uptime_of(now: i128, start: i128) -> (up: u64)
    ensures
        up == uptime_secs(now, start),
{
    if now <= start {
        0
    } else {
        match now.checked_sub(start) {
            Some(d) => {
                let q: i128 = d / 1_000_000_000;
                if q > u64::MAX as i128 {
                    u64::MAX
                } else {
                    q as u64
                }
            },
            None => {
                assert((now - start) / 1_000_000_000 > u64::MAX) by (nonlinear_arith)
                    requires now - start > i128::MAX;
                u64::MAX
            },
        }
    }
}

/// Monitors and reports on system health.
pub struct HealthMonitor {
    healthy: bool,
    subsystems: Vec<SubsystemHealth>,
    start_time: i128,
}

impl HealthMonitor {
    /// Whether no failure was ever reported.
    pub closed spec fn flag(&self) -> bool {
        self.healthy
    }

    /// The registered subsystems, in registration order.
    pub closed spec fn subs(&self) -> Seq<SubsystemHealth> {
        self.subsystems@
    }

    /// When monitoring started (nanoseconds since the epoch).
    pub closed spec fn started(&self) -> i128 {
        self.start_time
    }

    pub fn new() -> (m: Self)
        ensures
            m.flag(),
            m.subs().len() == 0,
    {
        HealthMonitor { healthy: true, subsystems: Vec::new(), start_time: now_nanos() }
    }

    /// Index of the subsystem `name`, if registered.
    fn index_of(&self, name: &str) -> (r: Option<usize>)
        ensures
            match r {
                Some(i) => i < self.subs().len() && self.subs()[i as int].name@ == name@ && forall|j: int|
                    0 <= j < i ==> self.subs()[j].name@ != name@,
                None => forall|j: int| 0 <= j < self.subs().len() ==> self.subs()[j].name@ != name@,
            },
    {
        let mut i: usize = 0;
        while i < self.subsystems.len()
            invariant
                i <= self.subsystems.len(),
                forall|j: int| 0 <= j < i ==> self.subsystems@[j].name@ != name@,
            decreases self.subsystems.len() - i,
        {
            if eq_str(self.subsystems[i].name.as_str(), name) {
                return Some(i);
            }
            i = i + 1;
        }
        None
    }

    /// Registers `name` as healthy, replacing an earlier registration.
    pub fn register_subsystem(&mut self, name: &str)
        ensures
            final(self).flag() == old(self).flag(),
            final(self).started() == old(self).started(),
            exists|i: int|
                0 <= i < final(self).subs().len() && #[trigger] final(self).subs()[i].name@ == name@
                    && final(self).subs()[i].healthy && final(self).subs()[i].error_count == 0
                    && final(self).subs()[i].message@ == "OK"@,
            (forall|j: int| 0 <= j < old(self).subs().len() ==> old(self).subs()[j].name@ != name@) ==> final(self).subs().len() == old(self).subs().len() + 1,
            (exists|j: int| 0 <= j < old(self).subs().len() && old(self).subs()[j].name@ == name@) ==> final(self).subs().len() == old(self).subs().len(),
    {
        let now = now_nanos();
        let fresh = SubsystemHealth::new(name, now);
        match self.index_of(name) {
            Some(i) => {
                self.subsystems.set(i, fresh);
                assert(self.subs()[i as int].name@ == name@);
            },
            None => {
                self.subsystems.push(fresh);
                assert(self.subs()[self.subs().len() - 1].name@ == name@);
            },
        }
    }

    /// Marks the first subsystem named `name` healthy with a fresh heartbeat; an
    /// unknown name changes nothing.
    pub fn report_healthy(&mut self, name: &str)
        ensures
            final(self).flag() == old(self).flag(),
            final(self).subs().len() == old(self).subs().len(),
            forall|j: int|
                0 <= j < old(self).subs().len() ==> {
                    let (o, n) = (old(self).subs()[j], #[trigger] final(self).subs()[j]);
                    &&& n.name@ == o.name@
                    &&& n.error_count == o.error_count
                    &&& if o.name@ == name@ && (forall|k: int| 0 <= k < j ==> old(self).subs()[k].name@ != name@) {
                        n.healthy && n.message@ == "OK"@
                    } else {
                        n == o
                    }
                },
    {
        let now = now_nanos();
        match self.index_of(name) {
            Some(i) => {
                let mut h = self.subsystems.remove(i);
                h.healthy = true;
                h.last_heartbeat = now;
                h.message = "OK".to_owned();
                self.subsystems.insert(i, h);
            },
            None => {},
        }
    }

    /// Marks the first subsystem named `name` unhealthy with `message` and one more
    /// error; the monitor as a whole is unhealthy from then on.
    pub fn report_unhealthy(&mut self, name: &str, message: &str)
        ensures
            !final(self).flag(),
            final(self).subs().len() == old(self).subs().len(),
            forall|j: int|
                0 <= j < old(self).subs().len() ==> {
                    let (o, n) = (old(self).subs()[j], #[trigger] final(self).subs()[j]);
                    &&& n.name@ == o.name@
                    &&& if o.name@ == name@ && (forall|k: int| 0 <= k < j ==> old(self).subs()[k].name@ != name@) {
                        !n.healthy && n.message@ == message@ && n.error_count == o.error_count.wrapping_add(1)
                    } else {
                        n == o
                    }
                },
    {
        let now = now_nanos();
        match self.index_of(name) {
            Some(i) => {
                let mut h = self.subsystems.remove(i);
                h.healthy = false;
                h.last_heartbeat = now;
                h.error_count = h.error_count.wrapping_add(1);
                h.message = message.to_owned();
                self.subsystems.insert(i, h);
            },
            None => {},
        }
        self.healthy = false;
    }

    /// A snapshot at `now` (nanoseconds): healthy when every subsystem is.
    pub fn snapshot_at(&self, now: i128) -> (s: HealthSnapshot)
        ensures
            s.timestamp == now,
            s.overall_healthy == (forall|j: int| 0 <= j < self.subs().len() ==> #[trigger] self.subs()[j].healthy),
            s.subsystems@.len() == self.subs().len(),
            forall|j: int| 0 <= j < s.subsystems@.len() ==> {
                let (a, b) = (#[trigger] s.subsystems@[j], self.subs()[j]);
                a.name@ == b.name@ && a.healthy == b.healthy && a.last_heartbeat == b.last_heartbeat
                    && a.error_count == b.error_count && a.message@ == b.message@
            },
            s.uptime_seconds == uptime_secs(now, self.started()),
    {
        let mut subs: Vec<SubsystemHealth> = Vec::new();
        let mut all = true;
        let mut i: usize = 0;
        while i < self.subsystems.len()
            invariant
                i <= self.subsystems.len(),
                subs@.len() == i,
                all == (forall|j: int| 0 <= j < i ==> #[trigger] self.subsystems@[j].healthy),
                forall|j: int| 0 <= j < i ==> {
                    let (a, b) = (#[trigger] subs@[j], self.subsystems@[j]);
                    a.name@ == b.name@ && a.healthy == b.healthy && a.last_heartbeat == b.last_heartbeat
                        && a.error_count == b.error_count && a.message@ == b.message@
                },
            decreases self.subsystems.len() - i,
        {
            let h = &self.subsystems[i];
            if !h.healthy {
                all = false;
            }
            subs.push(
                SubsystemHealth {
                    name: h.name.clone(),
                    healthy: h.healthy,
                    last_heartbeat: h.last_heartbeat,
                    error_count: h.error_count,
                    message: h.message.clone(),
                },
            );
            i = i + 1;
        }
        assert(self.subs() == self.subsystems@);
        let up = uptime_of(now, self.start_time);
        HealthSnapshot { timestamp: now, overall_healthy: all, subsystems: subs, uptime_seconds: up }
    }

    /// A snapshot taken now.
    pub fn snapshot(&self) -> (s: HealthSnapshot)
        ensures
            s.overall_healthy == (forall|j: int| 0 <= j < self.subs().len() ==> #[trigger] self.subs()[j].healthy),
            s.subsystems@.len() == self.subs().len(),
            s.uptime_seconds == uptime_secs(s.timestamp, self.started()),
    {
        self.snapshot_at(now_nanos())
    }

    /// No failure has been reported.
    pub fn is_healthy(&self) -> (b: bool)
        ensures
            b == self.flag(),
    {
        self.healthy
    }
}

} // verus!
