//! Multi-stage pipelines: their stages, runs and stage health.
use vstd::prelude::*;
use crate::text::{dec, push_dec, push_str};

verus! {

/// Result of a pipeline execution.
#[derive(Debug, Clone)]
pub struct PipelineResult {
    pub pipeline_name: String,
    pub success: bool,
    pub stages_completed: usize,
    pub total_stages: usize,
    pub message: String,
}

/// Health check result for a pipeline stage.
#[derive(Debug, Clone)]
pub struct HealthCheck {
    pub stage: String,
    pub healthy: bool,
    pub details: String,
}

/// Orchestrates multi-stage pipeline execution.
pub struct PipelineOrchestrator {
    name: String,
    stages: Vec<String>,
    last_result: Option<PipelineResult>,
}

impl PipelineOrchestrator {
    /// The pipeline's name.
    pub closed spec fn name_view(&self) -> Seq<char> {
        self.name@
    }

    /// The stage names, in order.
    pub closed spec fn stage_names(&self) -> Seq<Seq<char>> {
        self.stages@.map_values(|s: String| s@)
    }

    /// The result of the last run, if any.
    pub closed spec fn recorded(&self) -> Option<PipelineResult> {
        self.last_result
    }

    pub fn new(name: &str) -> (p: Self)
        ensures
            p.name_view() == name@,
            p.stage_names().len() == 0,
            p.recorded() is None,
    {
        PipelineOrchestrator { name: name.to_owned(), stages: Vec::new(), last_result: None }
    }

    pub fn add_stage(&mut self, stage: &str)
        ensures
            final(self).stage_names() == old(self).stage_names().push(stage@),
            final(self).name_view() == old(self).name_view(),
            final(self).recorded() == old(self).recorded(),
    {
        let ghost before = self.stages@;
        self.stages.push(stage.to_owned());
        assert(self.stages@.map_values(|s: String| s@) =~= before.map_values(|s: String| s@).push(stage@));
    }

    pub fn stages(&self) -> (s: &[String])
        ensures
            s@.map_values(|x: String| x@) == self.stage_names(),
    {
        self.stages.as_slice()
    }

    /// Runs every stage in order; the result, also kept as the last result, counts
    /// them all as completed.
    pub fn run(&mut self) -> (r: PipelineResult)
        ensures
            r.pipeline_name@ == old(self).name_view(),
            r.success,
            r.stages_completed == old(self).stage_names().len(),
            r.total_stages == old(self).stage_names().len(),
            r.message@ == "Pipeline '"@ + old(self).name_view() + "' completed: "@ + dec(
                r.stages_completed as nat,
            ) + "/"@ + dec(r.total_stages as nat) + " stages"@,
            final(self).recorded() == Some(r),
            final(self).stage_names() == old(self).stage_names(),
            final(self).name_view() == old(self).name_view(),
    {
        let total = self.stages.len();
        let mut completed: usize = 0;
        let mut i: usize = 0;
        while i < self.stages.len()
            invariant
                i <= self.stages.len(),
                completed == i,
            decreases self.stages.len() - i,
        {
            completed = completed + 1;
            i = i + 1;
        }
        let mut message = String::new();
        push_str(&mut message, "Pipeline '");
        push_str(&mut message, self.name.as_str());
        push_str(&mut message, "' completed: ");
        push_dec(&mut message, completed as u64);
        push_str(&mut message, "/");
        push_dec(&mut message, total as u64);
        push_str(&mut message, " stages");
        let result = PipelineResult {
            pipeline_name: self.name.clone(),
            success: completed == total,
            stages_completed: completed,
            total_stages: total,
            message,
        };
        let kept = PipelineResult {
            pipeline_name: result.pipeline_name.clone(),
            success: result.success,
            stages_completed: result.stages_completed,
            total_stages: result.total_stages,
            message: result.message.clone(),
        };
        self.last_result = Some(kept);
        result
    }

    /// Every stage reports itself available.
    pub fn health_check(&self) -> (hs: Vec<HealthCheck>)
        ensures
            hs@.len() == self.stage_names().len(),
            forall|i: int|
                0 <= i < hs@.len() ==> (#[trigger] hs@[i]).stage@ == self.stage_names()[i] && hs@[i].healthy
                    && hs@[i].details@ == "Pipeline stage available"@,
    {
        let mut hs: Vec<HealthCheck> = Vec::new();
        let mut i: usize = 0;
        while i < self.stages.len()
            invariant
                i <= self.stages.len(),
                hs@.len() == i,
                forall|j: int|
                    0 <= j < i ==> (#[trigger] hs@[j]).stage@ == self.stages@[j]@ && hs@[j].healthy
                        && hs@[j].details@ == "Pipeline stage available"@,
            decreases self.stages.len() - i,
        {
            hs.push(
                HealthCheck {
                    stage: self.stages[i].clone(),
                    healthy: true,
                    details: "Pipeline stage available".to_owned(),
                },
            );
            i = i + 1;
        }
        hs
    }
}

} // verus!
