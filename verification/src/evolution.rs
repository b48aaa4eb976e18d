//! Self-evolution: the auto-evolve cycle's decisions.
pub mod auto_evolve;
