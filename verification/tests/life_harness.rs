use omega_agi::life_harness::heartbeat::HeartbeatMonitor;
use omega_agi::life_harness::persistence::SessionStore;
use omega_agi::life_harness::recovery::{RecoveryAction, RecoveryManager};
use omega_agi::life_harness::{heartbeat_needs_recovery, system_status, BoundedLog, LifeConfig, SystemStatus};

#[test]
fn recovery_escalates_with_failures() {
    let mut m = RecoveryManager::new(true);
    match m.trigger("disk full") {
        RecoveryAction::RestartSubsystem(s) => assert_eq!(s, "Subsystem restart (attempt 1/3): disk full"),
        other => panic!("unexpected {:?}", other),
    }
    assert!(matches!(m.trigger("x"), RecoveryAction::RestartSubsystem(_)));
    for _ in 3..=5 {
        assert!(matches!(m.trigger("x"), RecoveryAction::ResetToLastGood));
    }
    for _ in 6..=8 {
        assert!(matches!(m.trigger("x"), RecoveryAction::FullRestart));
    }
    assert!(matches!(m.trigger("x"), RecoveryAction::EmergencyShutdown));
    assert_eq!(m.recovery_count(), 9);
    assert_eq!(m.last_action().as_ref().unwrap().description(), "EMERGENCY: System shutdown");
    m.reset();
    assert_eq!(m.recovery_count(), 0);
    let mut off = RecoveryManager::new(false);
    assert!(matches!(off.trigger("x"), RecoveryAction::NoRecovery));
    assert_eq!(RecoveryAction::NoRecovery.description(), "No recovery needed");
}

#[test]
fn heartbeat_counts() {
    let mut hb = HeartbeatMonitor::new(10, 2);
    let s = hb.status(0);
    assert_eq!(s.last_ping, "never");
    assert!(s.healthy);
    let s = hb.ping("2024-01-01T00:00:00Z", 5);
    assert_eq!((s.consecutive_successes, s.total_pings, s.uptime_secs), (1, 1, 5));
    assert_eq!(s.last_ping, "2024-01-01T00:00:00Z");
    hb.fail(6);
    let s = hb.fail(7);
    assert_eq!(s.failures, 2);
    assert!(!s.healthy);
    assert_eq!(hb.interval(), 10);
    let config = LifeConfig::default();
    assert!(heartbeat_needs_recovery(&s, &LifeConfig { max_failures: 2, ..config.clone() }));
    assert!(!heartbeat_needs_recovery(&s, &config));
}

#[test]
fn overall_status() {
    assert_eq!(system_status(1, 0, 0), SystemStatus::Critical);
    assert_eq!(system_status(0, 1, 0), SystemStatus::Degraded);
    assert_eq!(system_status(0, 0, 3), SystemStatus::Degraded);
    assert_eq!(system_status(0, 0, 0), SystemStatus::Healthy);
}

#[test]
fn sessions_read_back_what_was_stored() {
    let mut store = SessionStore::new("./data/state.json");
    store.store("s1", "k", "v1", "t0");
    store.store("s1", "k2", "w", "t1");
    store.store("s2", "k", "other", "t2");
    store.store("s1", "k", "v2", "t3");
    assert_eq!(store.get("s1", "k").as_deref(), Some("v2"));
    assert_eq!(store.get("s1", "k2").as_deref(), Some("w"));
    assert_eq!(store.get("s2", "k").as_deref(), Some("other"));
    assert_eq!(store.get("s3", "k"), None);
    assert_eq!(store.session_count(), 2);
    assert_eq!(store.path(), "./data/state.json");
    let saved: Vec<_> = store.entries().clone();
    store.clear();
    assert_eq!(store.session_count(), 0);
    let ids = store.replace_all(saved);
    assert_eq!(ids, vec!["s1".to_string(), "s2".to_string()]);
    assert_eq!(store.get("s1", "k").as_deref(), Some("v2"));
}

#[test]
fn bounded_log_drops_the_oldest() {
    let mut log = BoundedLog::new(2);
    log.push("t1", "a");
    log.push("t2", "b");
    log.push("t3", "c");
    assert_eq!(log.entries(), &vec!["[t2] b".to_string(), "[t3] c".to_string()]);
}
