use omega_agi::engineering::quality_gate::{BasicQualityGate, GateCheck, GateContext, QualityGateRunner};

fn context(entries: Vec<(&str, Option<u64>)>) -> GateContext {
    let mut ctx = GateContext::default();
    ctx.phase = 1;
    ctx.metadata = entries.into_iter().map(|(k, v)| (k.to_string(), v)).collect();
    ctx
}

#[test]
fn default_gates_by_phase() {
    let runner = QualityGateRunner::new();
    assert_eq!(
        runner.get_gates_for_phase(1),
        vec!["PlanCompletenessGate".to_string(), "PlanMinImprovementsGate".to_string()]
    );
    assert_eq!(
        runner.get_gates_for_phase(2),
        vec!["CompilationGate".to_string(), "RustTestGate".to_string(), "PythonTestGate".to_string()]
    );
    assert_eq!(runner.get_gates_for_phase(3).len(), 2);
    assert!(runner.get_gates_for_phase(4).is_empty());
}

#[test]
fn planning_phase_blocks_on_empty_context() {
    let runner = QualityGateRunner::default();
    let r = runner.run_phase(1, &GateContext::default());
    assert_eq!(r.phase, 1);
    assert_eq!(r.total, 2);
    assert_eq!(r.passed, 0);
    assert_eq!(r.failed, 2);
    assert!(r.blocking_failed);
    assert_eq!(r.summary, "Phase 1 Quality Gates: 0/2 passed (BLOCKING FAILURE)");
    assert_eq!(
        r.results[0].details,
        "Gate 'PlanCompletenessGate' failed: Every improvement must have all required fields"
    );
    assert_eq!(r.results[1].severity, "blocking");
}

#[test]
fn planning_phase_passes_with_metadata() {
    let runner = QualityGateRunner::new();
    let ctx = context(vec![("complete", None), ("improvement_count", Some(3))]);
    let r = runner.run_phase(1, &ctx);
    assert_eq!(r.passed, 2);
    assert!(!r.blocking_failed);
    assert_eq!(r.summary, "Phase 1 Quality Gates: 2/2 passed");
    assert_eq!(r.results[0].details, "Gate 'PlanCompletenessGate' passed");
}

#[test]
fn improvement_count_below_three_fails() {
    let runner = QualityGateRunner::new();
    let ctx = context(vec![("complete", Some(1)), ("improvement_count", Some(2))]);
    let r = runner.run_phase(1, &ctx);
    assert_eq!(r.passed, 1);
    assert!(r.blocking_failed);
    assert!(!r.results[1].passed);
    let ctx = context(vec![("complete", Some(1)), ("improvement_count", None)]);
    assert!(!runner.run_phase(1, &ctx).results[1].passed);
}

#[test]
fn warning_failure_does_not_block() {
    let mut runner = QualityGateRunner::new();
    runner.register_gate(BasicQualityGate::new("Lint", 3, "warning", "Lint must be clean", GateCheck::Fixed(false)));
    let r = runner.run_phase(3, &GateContext::default());
    assert_eq!(r.total, 3);
    assert_eq!(r.passed, 2);
    assert_eq!(r.failed, 1);
    assert!(!r.blocking_failed);
    assert_eq!(r.summary, "Phase 3 Quality Gates: 2/3 passed");
}

#[test]
fn run_all_goes_through_phases_in_order() {
    let mut runner = QualityGateRunner::new();
    runner.register_gate(BasicQualityGate::new("Late", 9, "blocking", "late", GateCheck::Fixed(true)));
    runner.register_gate(BasicQualityGate::new("Early", 0, "blocking", "early", GateCheck::Fixed(false)));
    let all = runner.run_all(&GateContext::default());
    let phases: Vec<u32> = all.iter().map(|r| r.phase).collect();
    assert_eq!(phases, vec![0, 1, 2, 3, 9]);
    assert_eq!(all[0].summary, "Phase 0 Quality Gates: 0/1 passed (BLOCKING FAILURE)");
    assert_eq!(all[2].summary, "Phase 2 Quality Gates: 3/3 passed");
}
