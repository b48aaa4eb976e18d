//! Performance boost modes and their order.
use vstd::prelude::*;

verus! {

/// Performance boost modes.
#[derive(Debug, Clone, Copy, PartialEq, Eq, Structural)]
pub enum BoostMode {
    Eco,
    Normal,
    Turbo,
    Overdrive,
}

impl BoostMode {
    /// The mode's label.
    pub open spec fn label(&self) -> Seq<char> {
        match self {
            BoostMode::Eco => "\u{1f331} Eco"@,
            BoostMode::Normal => "\u{26a1} Normal"@,
            BoostMode::Turbo => "\u{1f525} Turbo"@,
            BoostMode::Overdrive => "\u{1f680} Overdrive"@,
        }
    }

    /// What the mode is for.
    pub open spec fn purpose(&self) -> Seq<char> {
        match self {
            BoostMode::Eco => "Power saving mode, reduced resource usage"@,
            BoostMode::Normal => "Balanced performance and efficiency"@,
            BoostMode::Turbo => "High performance, increased resource usage"@,
            BoostMode::Overdrive => "Maximum performance, all resources allocated"@,
        }
    }

    pub fn name(&self) -> (s: &str)
        ensures
            s@ == self.label(),
    {
        match self {
            BoostMode::Eco => "\u{1f331} Eco",
            BoostMode::Normal => "\u{26a1} Normal",
            BoostMode::Turbo => "\u{1f525} Turbo",
            BoostMode::Overdrive => "\u{1f680} Overdrive",
        }
    }

    pub fn description(&self) -> (s: &str)
        ensures
            s@ == self.purpose(),
    {
        match self {
            BoostMode::Eco => "Power saving mode, reduced resource usage",
            BoostMode::Normal => "Balanced performance and efficiency",
            BoostMode::Turbo => "High performance, increased resource usage",
            BoostMode::Overdrive => "Maximum performance, all resources allocated",
        }
    }

    /// The mode that cycling moves to: Eco, Normal, Turbo, Overdrive, then Eco again.
    pub open spec fn successor(self) -> BoostMode {
        match self {
            BoostMode::Eco => BoostMode::Normal,
            BoostMode::Normal => BoostMode::Turbo,
            BoostMode::Turbo => BoostMode::Overdrive,
            BoostMode::Overdrive => BoostMode::Eco,
        }
    }

    /// The mode that cycling moves to (see `successor`).
    pub fn next(&self) -> (m: BoostMode)
        ensures
            m == self.successor(),
    {
        match self {
            BoostMode::Eco => BoostMode::Normal,
            BoostMode::Normal => BoostMode::Turbo,
            BoostMode::Turbo => BoostMode::Overdrive,
            BoostMode::Overdrive => BoostMode::Eco,
        }
    }
}

/// Cycling through the modes four times comes back to the start, and visits every
/// mode on the way.
pub proof fn lemma_boost_cycle(m: BoostMode)
    ensures
        m.successor().successor().successor().successor() == m,
        m != m.successor(),
        m.successor() != m.successor().successor(),
{
}

} // verus!
