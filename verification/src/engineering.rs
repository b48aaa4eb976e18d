//! Layer 2: the multi-language test harness.
pub mod test_runner;
pub mod quality_gate;
