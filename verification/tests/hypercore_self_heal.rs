use omega_agi::hypercore::self_heal::{
    default_classify, diagnose, health_check, pipeline_begin, pipeline_finish, verify_healing,
    CircuitBreaker, CircuitState, FailureClass, HealingLedger, HealthStatus, PlanStep,
    RecoveryStrategy,
};
use omega_agi::hypercore::self_heal::{breaker_open_error, exhausted_error, retry_step, RetryStep};

fn run_pipeline(target: &str, issue: &str) -> omega_agi::hypercore::self_heal::HealingResult {
    let start = std::time::Instant::now();
    let plan = match pipeline_begin(target, issue, &start) {
        Ok(plan) => plan,
        Err(res) => return res,
    };
    let mut step = plan.first_step(&start);
    let executed = loop {
        match step {
            PlanStep::Run(i) => {
                let s = &plan.strategies[i];
                let outcome = s.outcome(start.elapsed().as_millis() as u64);
                step = plan.after_strategy(i, &outcome, &start);
            }
            PlanStep::Done(r) => break r,
        }
    };
    pipeline_finish(target, issue, executed, &start)
}

#[test]
fn test_circuit_breaker_closed() {
    let mut cb = CircuitBreaker::new();
    assert!(cb.allow_request());
    assert_eq!(cb.state, CircuitState::Closed);
}

#[test]
fn test_circuit_breaker_trips_at_threshold() {
    let mut cb = CircuitBreaker::with_thresholds(3, 60);
    for _ in 0..3 {
        cb.record_failure();
    }
    assert_eq!(cb.state, CircuitState::Open);
    assert!(!cb.allow_request());
}

#[test]
fn test_circuit_breaker_half_open_probe_fails() {
    let mut cb = CircuitBreaker::with_thresholds(2, 1);
    cb.record_failure();
    cb.record_failure();
    assert_eq!(cb.state, CircuitState::Open);
    let last = cb.last_failure_time.unwrap();
    cb.last_failure_time = Some(last - 2_000_000_000);
    let mut cb = CircuitBreaker::with_thresholds(2, 0);
    cb.record_failure();
    cb.record_failure();
    assert_eq!(cb.state, CircuitState::Open);
    assert!(cb.allow_request());
    assert_eq!(cb.state, CircuitState::HalfOpen);
    cb.record_failure();
    assert_eq!(cb.state, CircuitState::Open);
}

#[test]
fn test_failure_classification() {
    assert_eq!(default_classify("connection timeout"), FailureClass::Transient);
    assert_eq!(default_classify("rate limit exceeded"), FailureClass::Transient);
    assert_eq!(default_classify("503 Service Unavailable"), FailureClass::Transient);
    assert_eq!(default_classify("config error: bad value"), FailureClass::Permanent);
    assert_eq!(default_classify("invalid state"), FailureClass::Permanent);
}

#[test]
fn test_diagnose_creates_plan() {
    let plan = diagnose("api-server", "connection timeout");
    assert!(plan.is_actionable());
    assert!(!plan.strategies.is_empty());
}

#[test]
fn test_healing_pipeline() {
    let result = run_pipeline("test-service", "connection timeout");
    assert!(result.success || !result.message.is_empty());
}

#[test]
fn test_recovery_strategies() {
    let strategies = vec![
        RecoveryStrategy::RestartWithBackoff {
            target: "svc".to_string(),
            initial_delay_ms: 10,
            max_delay_ms: 100,
        },
        RecoveryStrategy::ScaleUp { target: "svc".to_string(), additional_replicas: 2 },
        RecoveryStrategy::ClearCache { target: "svc".to_string(), cache_key: None },
        RecoveryStrategy::RollbackToLastGood { target: "svc".to_string(), version: None },
    ];
    for s in &strategies {
        let start = std::time::Instant::now();
        let result = s.outcome(start.elapsed().as_millis() as u64);
        assert!(result.success);
        assert!(result.duration_ms < 5000);
    }
}

#[test]
fn test_verify_healing() {
    let result = verify_healing("healthy-svc", "timeout");
    assert!(result.success);
}

#[test]
fn test_health_check_empty_target() {
    match health_check("") {
        HealthStatus::Unhealthy { .. } => {}
        _ => panic!("Empty target should be unhealthy"),
    }
}

#[test]
fn breaker_opens_exactly_at_the_threshold() {
    let mut cb = CircuitBreaker::with_thresholds(4, 60);
    for k in 1..4u64 {
        cb.record_failure_at(1_000);
        assert_eq!(cb.failure_count, k);
        assert_eq!(cb.state, CircuitState::Closed);
    }
    cb.record_failure_at(1_000);
    assert_eq!(cb.state, CircuitState::Open);
}

#[test]
fn open_breaker_waits_for_its_recovery_timeout() {
    let mut cb = CircuitBreaker::with_thresholds(1, 30);
    let failed_at: i128 = 1_700_000_000_123_456_789;
    cb.record_failure_at(failed_at);
    assert_eq!(cb.state, CircuitState::Open);
    assert!(!cb.allow_request_at(failed_at + 29_999_999_999));
    assert_eq!(cb.state, CircuitState::Open);
    assert!(!cb.allow_request_at(failed_at - 1));
    assert!(cb.allow_request_at(failed_at + 30_000_000_000));
    assert_eq!(cb.state, CircuitState::HalfOpen);
    cb.record_success();
    assert_eq!(cb.state, CircuitState::Closed);
    assert_eq!(cb.failure_count, 0);
    assert_eq!(cb.last_failure_time, None);
}

#[test]
fn classification_ignores_letter_case() {
    assert_eq!(default_classify("Connection TIMEOUT while reading"), FailureClass::Transient);
    assert_eq!(default_classify(""), FailureClass::Permanent);
}

#[test]
fn diagnose_picks_strategies_by_issue() {
    let plan = diagnose("db", "stale cache after version mismatch");
    assert_eq!(plan.strategies.len(), 2);
    assert!(matches!(plan.strategies[0], RecoveryStrategy::ClearCache { .. }));
    assert!(matches!(plan.strategies[1], RecoveryStrategy::RollbackToLastGood { .. }));
    let fallback = diagnose("db", "something odd");
    assert_eq!(fallback.strategies.len(), 1);
    match &fallback.strategies[0] {
        RecoveryStrategy::RestartWithBackoff { initial_delay_ms, max_delay_ms, .. } => {
            assert_eq!(*initial_delay_ms, 1000);
            assert_eq!(*max_delay_ms, 30000);
        }
        _ => panic!("expected a restart"),
    }
}

#[test]
fn strategy_durations_and_pauses() {
    let restart = RecoveryStrategy::RestartWithBackoff {
        target: "svc".to_string(),
        initial_delay_ms: 800,
        max_delay_ms: 600,
    };
    assert_eq!(restart.estimated_duration_ms(), 800);
    assert_eq!(restart.pause_ms(), 500);
    let r = restart.outcome(7);
    assert_eq!(r.action, "restart_with_backoff(svc)");
    assert_eq!(r.message, "Restart initiated for svc with 600ms backoff");
    assert_eq!(r.duration_ms, 7);
    let scale = RecoveryStrategy::ScaleUp { target: "svc".to_string(), additional_replicas: 2 };
    assert_eq!(scale.estimated_duration_ms(), 2000);
    assert_eq!(scale.outcome(0).action, "scale_up(svc,+2)");
    let clear = RecoveryStrategy::ClearCache { target: "svc".to_string(), cache_key: None };
    assert_eq!(clear.estimated_duration_ms(), 500);
    assert_eq!(clear.outcome(0).message, "Cache cleared for svc (key: all)");
    let roll = RecoveryStrategy::RollbackToLastGood { target: "svc".to_string(), version: Some("v2".to_string()) };
    assert_eq!(roll.estimated_duration_ms(), 5000);
    assert_eq!(roll.outcome(0).action, "rollback(svc, v2)");
}

#[test]
fn pipeline_message_names_issue_and_target() {
    let result = run_pipeline("web", "rate limit hit");
    assert!(result.success);
    assert_eq!(result.action, "healing_pipeline(web)");
    assert!(result.message.starts_with("Pipeline result for 'rate limit hit' on 'web': "));
}

#[test]
fn verify_healing_of_empty_target_fails() {
    let result = verify_healing("", "timeout");
    assert!(!result.success);
    assert_eq!(result.action, "verify()");
}

#[test]
fn ledger_starts_empty_with_default_breaker() {
    let ledger = HealingLedger::new();
    assert!(ledger.get_events().is_empty());
    assert_eq!(ledger.circuit_breaker().failure_threshold, 5);
    assert_eq!(ledger.circuit_breaker().recovery_timeout_secs, 30);
}

#[test]
fn test_circuit_breaker_blocks_when_open() {
    let mut ledger = HealingLedger::with_thresholds(1, 60);
    let start = std::time::Instant::now();
    assert!(ledger.admit_diagnosis("svc", &start).is_none());
    let r1 = ledger.settle_pipeline("svc", "nonexistent", true, run_pipeline("svc", "nonexistent"), &start);
    assert!(!r1.success);
    assert!(r1.message.ends_with("(verify: no recovery strategy recognizes 'nonexistent')"));
    let r2 = match ledger.admit_diagnosis("svc", &start) {
        Some(refused) => refused,
        None => ledger.settle_pipeline("svc", "whatever", true, run_pipeline("svc", "whatever"), &start),
    };
    assert!(!r2.success || r2.message.contains("Circuit breaker") || r2.message.contains("OPEN"));
    assert!(r2.message.contains("Circuit breaker OPEN"));
}

#[test]
fn recognized_pipeline_heals() {
    let mut ledger = HealingLedger::new();
    let start = std::time::Instant::now();
    let r = ledger.settle_pipeline("svc", "connection timeout", true, run_pipeline("svc", "connection timeout"), &start);
    assert!(r.success);
    assert!(r.message.starts_with("Pipeline healed: "));
}

#[test]
fn retry_steps_follow_the_policy() {
    assert_eq!(retry_step(0, 3, true, FailureClass::Transient), RetryStep::Succeeded);
    assert_eq!(retry_step(0, 3, false, FailureClass::Permanent), RetryStep::Failed);
    assert_eq!(retry_step(2, 3, false, FailureClass::Transient), RetryStep::TryAgain);
    assert_eq!(retry_step(3, 3, false, FailureClass::Transient), RetryStep::Exhausted);
    assert_eq!(exhausted_error(3, "boom"), "All 3 retries exhausted. Last error: boom");
    assert_eq!(breaker_open_error(5, 5), "Circuit breaker is OPEN (5 failures, threshold 5)");
}
