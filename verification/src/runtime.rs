//! Layer 1: execution engine pieces: task graphs, effects, the swarm and loaded models.
pub mod graph_executor;
pub mod effect;
pub mod swarm;
pub mod ml_inference;
