use omega_agi::hypercore::diagnostics::DiagnosticEngine;
use omega_agi::hypercore::errors::HyperCoreError;
use omega_agi::hypercore::health::HealthMonitor;
use omega_agi::hypercore::logging::{LogLevel, Logger, LoggingConfig};
use omega_agi::hypercore::pipeline::PipelineOrchestrator;
use omega_agi::{transcendence_enabled, Config};

#[test]
fn diagnostics_count_distinct_subsystems() {
    let mut d = DiagnosticEngine::new();
    d.register_subsystem("memory");
    d.register_subsystem("scheduler");
    d.register_subsystem("memory");
    assert_eq!(d.get_subsystem_count(), 2);
    let report = d.run_diagnostics("2024-01-01T00:00:00Z".to_string());
    assert_eq!(report.overall_status, "healthy");
    assert_eq!(report.recommendation, "All systems operational");
    assert_eq!(report.subsystems[0].details, "Subsystem 'memory' is healthy");
}

#[test]
fn logger_numbers_events() {
    let mut l = Logger::new(LoggingConfig::default());
    assert_eq!(l.level(), "info");
    let a = l.info("start");
    let b = l.error("bad");
    assert_eq!((a.id, b.id), (0, 1));
    assert_eq!(b.level, LogLevel::Error);
    assert_eq!(l.warn("w").id, 2);
    assert_eq!(l.debug("d").message, "d");
}

#[test]
fn pipelines_run_all_stages() {
    let mut p = PipelineOrchestrator::new("omega");
    p.add_stage("ingest");
    p.add_stage("train");
    assert_eq!(p.stages().len(), 2);
    let r = p.run();
    assert!(r.success);
    assert_eq!((r.stages_completed, r.total_stages), (2, 2));
    assert_eq!(r.message, "Pipeline 'omega' completed: 2/2 stages");
    let hs = p.health_check();
    assert!(hs.iter().all(|h| h.healthy && h.details == "Pipeline stage available"));
}

#[test]
fn health_monitor_tracks_reports() {
    let mut m = HealthMonitor::new();
    m.register_subsystem("db");
    m.register_subsystem("cache");
    m.report_unhealthy("db", "down");
    assert!(!m.is_healthy());
    let s = m.snapshot();
    assert!(!s.overall_healthy);
    assert_eq!(s.subsystems[0].error_count, 1);
    assert_eq!(s.subsystems[0].message, "down");
    m.report_healthy("db");
    assert!(m.snapshot().overall_healthy);
    assert!(!m.is_healthy());
}

#[test]
fn errors_read_as_text() {
    assert_eq!(HyperCoreError::PipelineError("x".to_string()).message(), "Pipeline error: x");
    assert!(matches!(HyperCoreError::from("oops".to_string()), HyperCoreError::CoreError(_)));
}

#[test]
fn config_from_settings() {
    let c = Config::from_settings(Some(String::new()), None, Some("k".to_string()), None, None, Some("false"));
    assert!(c.github_token.is_none());
    assert_eq!(c.openai_api_key.as_deref(), Some("k"));
    assert_eq!(c.log_level, "info");
    assert_eq!(c.data_dir, "./data");
    assert!(!c.enable_transcendence);
    let c = c.with_github_token("gh").with_log_level("debug");
    assert_eq!(c.github_token.as_deref(), Some("gh"));
    assert_eq!(c.log_level, "debug");
    assert!(transcendence_enabled(None));
    assert!(transcendence_enabled(Some("yes")));
    assert!(!transcendence_enabled(Some("0")));
}
