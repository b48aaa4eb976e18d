//! Self-maintenance: heartbeats, recovery escalation, session persistence, and the
//! overall health status.
pub mod recovery;
pub mod heartbeat;
pub mod persistence;

use vstd::prelude::*;
use crate::life_harness::heartbeat::HeartbeatStatus;
use crate::life_harness::recovery::RecoveryAction;
use crate::text::push_str;

verus! {

/// Life-harness configuration.
#[derive(Debug, Clone)]
pub struct LifeConfig {
    /// Heartbeat interval in seconds.
    pub heartbeat_interval: u64,
    /// Failures before recovery.
    pub max_failures: u32,
    /// Automatic recovery enabled.
    pub auto_recovery: bool,
    /// Resource monitoring interval in seconds.
    pub resource_interval: u64,
    /// Persistence file path.
    pub persistence_path: String,
    /// Enable session persistence.
    pub enable_persistence: bool,
    /// Alert webhook URL.
    pub alert_webhook: Option<String>,
}

impl Default for LifeConfig {
    fn default() -> (c: Self)
        ensures
            c.heartbeat_interval == 10,
            c.max_failures == 3,
            c.auto_recovery,
            c.resource_interval == 30,
            c.persistence_path@ == "./data/life_harness_state.json"@,
            c.enable_persistence,
            c.alert_webhook is None,
    {
        LifeConfig {
            heartbeat_interval: 10,
            max_failures: 3,
            auto_recovery: true,
            resource_interval: 30,
            persistence_path: "./data/life_harness_state.json".to_owned(),
            enable_persistence: true,
            alert_webhook: None,
        }
    }
}

/// The overall state of the system.
#[derive(Debug, Clone, Copy, PartialEq, Eq, Structural)]
pub enum SystemStatus {
    Healthy,
    Degraded,
    Critical,
    Recovering,
}

/// Overall system health summary.
#[derive(Debug, Clone)]
pub struct HealthSummary {
    pub status: SystemStatus,
    pub uptime_secs: u64,
    pub heartbeat: HeartbeatStatus,
    pub resources: String,
    pub last_recovery: Option<RecoveryAction>,
    pub sessions_active: usize,
    pub warnings: Vec<String>,
    pub errors: Vec<String>,
}

/// The overall status: critical with any error, degraded with heartbeat failures or
/// warnings, healthy otherwise.
pub open spec fn overall_status(error_count: nat, heartbeat_failures: u32, warning_count: nat) -> SystemStatus {
    if error_count > 0 {
        SystemStatus::Critical
    } else if heartbeat_failures > 0 || warning_count > 0 {
        SystemStatus::Degraded
    } else {
        SystemStatus::Healthy
    }
}

/// The overall status (see `overall_status`).
pub fn system_status(error_count: usize, heartbeat_failures: u32, warning_count: usize) -> (s: SystemStatus)
    ensures
        s == overall_status(error_count as nat, heartbeat_failures, warning_count as nat),
{
    if error_count > 0 {
        SystemStatus::Critical
    } else if heartbeat_failures > 0 || warning_count > 0 {
        SystemStatus::Degraded
    } else {
        SystemStatus::Healthy
    }
}

/// A heartbeat triggers recovery once failures reach the limit and automatic
/// recovery is on.
pub fn heartbeat_needs_recovery(status: &HeartbeatStatus, config: &LifeConfig) -> (b: bool)
    ensures
        b == (status.failures >= config.max_failures && config.auto_recovery),
{
    status.failures >= config.max_failures && config.auto_recovery
}

/// Appends `item` to a history that keeps its `cap` most recent items, dropping the
/// oldest when the history grows past `cap`.
pub fn push_keeping_last<T>(history: &mut Vec<T>, item: T, cap: usize)
    ensures
        final(history)@ == if old(history)@.len() + 1 > cap {
            old(history)@.push(item).drop_first()
        } else {
            old(history)@.push(item)
        },
{
    history.push(item);
    if history.len() > cap {
        history.remove(0);
    }
}

/// A log of the most recent messages, each stamped, holding at most `cap` entries.
pub struct BoundedLog {
    entries: Vec<String>,
    cap: usize,
}

impl BoundedLog {
    /// The kept entries, oldest first.
    pub closed spec fn kept(&self) -> Seq<Seq<char>> {
        self.entries@.map_values(|s: String| s@)
    }

    /// The most entries kept.
    pub closed spec fn capacity(&self) -> usize {
        self.cap
    }

    /// Never more than `capacity` entries.
    pub closed spec fn wf(&self) -> bool {
        self.entries@.len() <= self.cap
    }

    pub fn new(cap: usize) -> (l: Self)
        ensures
            l.wf(),
            l.capacity() == cap,
            l.kept().len() == 0,
    {
        BoundedLog { entries: Vec::new(), cap }
    }

    /// Appends `[stamp] msg`, dropping the oldest entry when over capacity.
    pub fn push(&mut self, stamp: &str, msg: &str)
        requires
            old(self).wf(),
            old(self).capacity() > 0,
        ensures
            final(self).wf(),
            final(self).capacity() == old(self).capacity(),
            final(self).kept() == if old(self).kept().len() + 1 > old(self).capacity() {
                old(self).kept().push("["@ + stamp@ + "] "@ + msg@).drop_first()
            } else {
                old(self).kept().push("["@ + stamp@ + "] "@ + msg@)
            },
    {
        let mut e = String::new();
        push_str(&mut e, "[");
        push_str(&mut e, stamp);
        push_str(&mut e, "] ");
        push_str(&mut e, msg);
        let ghost before = self.entries@;
        self.entries.push(e);
        let ghost pushed = self.entries@;
        assert(pushed.map_values(|s: String| s@) =~= before.map_values(|s: String| s@).push(
            "["@ + stamp@ + "] "@ + msg@,
        ));
        if self.entries.len() > self.cap {
            self.entries.remove(0);
            assert(self.entries@.map_values(|s: String| s@) =~= pushed.map_values(|s: String| s@).drop_first());
        }
    }

    /// The kept entries, oldest first.
    pub fn entries(&self) -> (es: &Vec<String>)
        ensures
            es@.map_values(|s: String| s@) == self.kept(),
    {
        &self.entries
    }
}

} // verus!
