//! Layer 0: self-healing, pipelines, diagnostics, logging and errors.
pub mod self_heal;
pub mod errors;
pub mod logging;
pub mod diagnostics;
pub mod pipeline;
pub mod health;
