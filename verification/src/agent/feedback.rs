//! Where feedback scores come from.
use vstd::prelude::*;

verus! {

/// Where a score originates.
#[derive(Debug, Clone, Copy, PartialEq, Eq, Structural)]
pub enum ScoreSource {
    /// From compile success/failure.
    Compile,
    /// From test pass/fail rate.
    Test,
    /// From runtime performance metrics.
    Runtime,
    /// From code quality analysis.
    Quality,
    /// From user feedback.
    User,
    /// Internal evolution metric.
    Evolution,
}

} // verus!
