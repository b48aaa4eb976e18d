//! Swarms of cooperating agents.
pub mod agent_coordinator;
