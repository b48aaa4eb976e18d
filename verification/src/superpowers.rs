//! Capability boosters: performance modes, tuning, self-repair and system analysis.
pub mod boost;
pub mod analyzer;
pub mod self_heal;
pub mod optimizer;

use vstd::prelude::*;
use crate::superpowers::boost::BoostMode;

verus! {

/// Superpowers configuration.
#[derive(Debug, Clone, Copy)]
pub struct SuperpowerConfig {
    /// Enable auto-optimization.
    pub auto_optimize: bool,
    /// Default boost mode.
    pub default_boost: BoostMode,
    /// Self-heal interval in seconds.
    pub heal_interval: u64,
    /// Most auto-heal attempts per issue.
    pub max_heal_attempts: u32,
    /// Enable deep analysis.
    pub enable_analysis: bool,
    /// Analysis depth (1-5).
    pub analysis_depth: u32,
}

impl Default for SuperpowerConfig {
    fn default() -> (c: Self)
        ensures
            c.auto_optimize,
            c.default_boost == BoostMode::Normal,
            c.heal_interval == 60,
            c.max_heal_attempts == 3,
            c.enable_analysis,
            c.analysis_depth == 3,
    {
        SuperpowerConfig {
            auto_optimize: true,
            default_boost: BoostMode::Normal,
            heal_interval: 60,
            max_heal_attempts: 3,
            enable_analysis: true,
            analysis_depth: 3,
        }
    }
}

} // verus!
