//! The error type of the core layer.
use vstd::prelude::*;
use crate::text::push_str;

verus! {

/// Unified error type for core operations.
#[derive(Debug, Clone)]
pub enum HyperCoreError {
    CoreError(String),
    SchedulerError(String),
    MemoryError(String),
    SecurityError(String),
    SessionError(String),
    HealthCheckFailed(String),
    PipelineError(String),
    DiagnosticsError(String),
    SelfHealError(String),
    IoError(String),
}

impl HyperCoreError {
    /// The error's text, as shown to users.
    pub open spec fn text(&self) -> Seq<char> {
        match self {
            HyperCoreError::CoreError(s) => "Core error: "@ + s@,
            HyperCoreError::SchedulerError(s) => "Scheduler error: "@ + s@,
            HyperCoreError::MemoryError(s) => "Memory error: "@ + s@,
            HyperCoreError::SecurityError(s) => "Security error: "@ + s@,
            HyperCoreError::SessionError(s) => "Session error: "@ + s@,
            HyperCoreError::HealthCheckFailed(s) => "Health check failed: "@ + s@,
            HyperCoreError::PipelineError(s) => "Pipeline error: "@ + s@,
            HyperCoreError::DiagnosticsError(s) => "Diagnostics error: "@ + s@,
            HyperCoreError::SelfHealError(s) => "Self-heal error: "@ + s@,
            HyperCoreError::IoError(s) => "IO error: "@ + s@,
        }
    }

    /// The error's text, as shown to users.
    pub fn message(&self) -> (m: String)
        ensures
            m@ == self.text(),
    {
        let (prefix, s): (&str, &String) = match self {
            HyperCoreError::CoreError(s) => ("Core error: ", s),
            HyperCoreError::SchedulerError(s) => ("Scheduler error: ", s),
            HyperCoreError::MemoryError(s) => ("Memory error: ", s),
            HyperCoreError::SecurityError(s) => ("Security error: ", s),
            HyperCoreError::SessionError(s) => ("Session error: ", s),
            HyperCoreError::HealthCheckFailed(s) => ("Health check failed: ", s),
            HyperCoreError::PipelineError(s) => ("Pipeline error: ", s),
            HyperCoreError::DiagnosticsError(s) => ("Diagnostics error: ", s),
            HyperCoreError::SelfHealError(s) => ("Self-heal error: ", s),
            HyperCoreError::IoError(s) => ("IO error: ", s),
        };
        let mut m = String::new();
        push_str(&mut m, prefix);
        push_str(&mut m, s.as_str());
        m
    }
}

impl From<String> for HyperCoreError {
    fn from(e: String) -> (r: Self)
        ensures
            r matches HyperCoreError::CoreError(s) && s@ == e@,
    {
        HyperCoreError::CoreError(e)
    }
}

impl vstd::std_specs::convert::FromSpecImpl<String> for HyperCoreError {
    open spec fn obeys_from_spec() -> bool {
        true
    }

    open spec fn from_spec(v: String) -> HyperCoreError {
        HyperCoreError::CoreError(v)
    }
}

} // verus!
