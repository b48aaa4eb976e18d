//! Automatic recovery: the action taken after each reported failure escalates with
//! the number of failures.
use vstd::prelude::*;
use crate::text::{dec, push_dec, push_str};

verus! {

/// Types of recovery actions.
#[derive(Debug, Clone)]
pub enum RecoveryAction {
    NoRecovery,
    RestartSubsystem(String),
    ResetToLastGood,
    FullRestart,
    EmergencyShutdown,
}

impl RecoveryAction {
    /// What the action does, for people.
    pub open spec fn description_of(&self) -> Seq<char> {
        match self {
            RecoveryAction::NoRecovery => "No recovery needed"@,
            RecoveryAction::RestartSubsystem(s) => s@,
            RecoveryAction::ResetToLastGood => "Reset to last known good state"@,
            RecoveryAction::FullRestart => "Full system restart initiated"@,
            RecoveryAction::EmergencyShutdown => "EMERGENCY: System shutdown"@,
        }
    }

    pub fn description(&self) -> (d: &str)
        ensures
            d@ == self.description_of(),
    {
        match self {
            RecoveryAction::NoRecovery => "No recovery needed",
            RecoveryAction::RestartSubsystem(s) => s.as_str(),
            RecoveryAction::ResetToLastGood => "Reset to last known good state",
            RecoveryAction::FullRestart => "Full system restart initiated",
            RecoveryAction::EmergencyShutdown => "EMERGENCY: System shutdown",
        }
    }

    /// How drastic the action is: none, restart, reset, full restart, shutdown.
    pub open spec fn severity(&self) -> nat {
        match self {
            RecoveryAction::NoRecovery => 0,
            RecoveryAction::RestartSubsystem(_) => 1,
            RecoveryAction::ResetToLastGood => 2,
            RecoveryAction::FullRestart => 3,
            RecoveryAction::EmergencyShutdown => 4,
        }
    }
}

/// The severity of the action taken at the `count`-th failure, with automatic
/// recovery on or off.
pub open spec fn escalation(auto: bool, count: nat) -> nat {
    if !auto {
        0
    } else if count <= 2 {
        1
    } else if count <= 5 {
        2
    } else if count <= 8 {
        3
    } else {
        4
    }
}

/// Automatic system recovery.
pub struct RecoveryManager {
    auto_recovery: bool,
    last_action: Option<RecoveryAction>,
    recovery_count: u32,
    last_reason: String,
}

impl RecoveryManager {
    /// Whether recovery actions are taken at all.
    pub closed spec fn auto(&self) -> bool {
        self.auto_recovery
    }

    /// How many failures were reported since the last reset.
    pub closed spec fn count(&self) -> u32 {
        self.recovery_count
    }

    /// The action taken at the last failure, if any.
    pub closed spec fn last(&self) -> Option<RecoveryAction> {
        self.last_action
    }

    /// The reason given with the last failure.
    pub closed spec fn reason(&self) -> Seq<char> {
        self.last_reason@
    }

    pub fn new(auto_recovery: bool) -> (m: Self)
        ensures
            m.auto() == auto_recovery,
            m.count() == 0,
            m.last() is None,
            m.reason().len() == 0,
    {
        RecoveryManager { auto_recovery, last_action: None, recovery_count: 0, last_reason: String::new() }
    }

    /// Reports a failure for `reason` and returns the recovery action for it: a
    /// subsystem restart for the first two failures, a reset for the next three, a
    /// full restart for the next three, then an emergency shutdown; no action when
    /// automatic recovery is off.
    pub fn trigger(&mut self, reason: &str) -> (a: RecoveryAction)
        requires
            old(self).count() < u32::MAX,
        ensures
            final(self).count() == old(self).count() + 1,
            final(self).reason() == reason@,
            final(self).auto() == old(self).auto(),
            final(self).last() == Some(a),
            a.severity() == escalation(old(self).auto(), final(self).count() as nat),
            a matches RecoveryAction::RestartSubsystem(s) ==> s@ == "Subsystem restart (attempt "@ + dec(
                final(self).count() as nat,
            ) + "/3): "@ + reason@,
    {
        self.recovery_count = self.recovery_count + 1;
        let count = self.recovery_count;
        self.last_reason = reason.to_owned();
        let action = if !self.auto_recovery {
            RecoveryAction::NoRecovery
        } else if count <= 2 {
            let mut s = String::new();
            push_str(&mut s, "Subsystem restart (attempt ");
            push_dec(&mut s, count as u64);
            push_str(&mut s, "/3): ");
            push_str(&mut s, reason);
            RecoveryAction::RestartSubsystem(s)
        } else if count <= 5 {
            RecoveryAction::ResetToLastGood
        } else if count <= 8 {
            RecoveryAction::FullRestart
        } else {
            RecoveryAction::EmergencyShutdown
        };
        let kept = match &action {
            RecoveryAction::NoRecovery => RecoveryAction::NoRecovery,
            RecoveryAction::RestartSubsystem(s) => RecoveryAction::RestartSubsystem(s.clone()),
            RecoveryAction::ResetToLastGood => RecoveryAction::ResetToLastGood,
            RecoveryAction::FullRestart => RecoveryAction::FullRestart,
            RecoveryAction::EmergencyShutdown => RecoveryAction::EmergencyShutdown,
        };
        self.last_action = Some(kept);
        action
    }

    pub fn last_action(&self) -> (a: &Option<RecoveryAction>)
        ensures
            *a == self.last(),
    {
        &self.last_action
    }

    pub fn recovery_count(&self) -> (n: u32)
        ensures
            n == self.count(),
    {
        self.recovery_count
    }

    /// Forgets the failures counted so far and the last reason (the last action is
    /// kept).
    pub fn reset(&mut self)
        ensures
            final(self).count() == 0,
            final(self).reason().len() == 0,
            final(self).last() == old(self).last(),
            final(self).auto() == old(self).auto(),
    {
        self.recovery_count = 0;
        self.last_reason = String::new();
    }
}

/// With automatic recovery on, a later failure never gets a milder action than an
/// earlier one.
pub proof fn lemma_recovery_escalates(auto: bool, earlier: nat, later: nat)
    requires
        earlier <= later,
    ensures
        escalation(auto, earlier) <= escalation(auto, later),
{
}

} // verus!
