use omega_agi::evolution::auto_evolve::{file_of, tests_passed, AutoEvolve, AutoEvolveConfig};

#[test]
fn test_auto_evolve_config_default() {
    let config = AutoEvolveConfig::default();
    assert_eq!(config.max_fix_retries, 3);
    assert_eq!(config.git_remote, "origin");
}

#[test]
fn test_auto_evolve_new_with_defaults() {
    let ae = AutoEvolve::new_with_defaults();
    assert_eq!(ae.iteration(), 0);
}

#[test]
fn branch_name_uses_the_iteration() {
    let mut ae = AutoEvolve::new_with_defaults();
    assert_eq!(ae.begin_iteration(), 1);
    assert_eq!(ae.begin_iteration(), 2);
    assert_eq!(ae.branch_name(), "auto-evolve/iteration-2");
    let mut config = AutoEvolveConfig::default();
    config.branch_template = "evo-{iteration}-{iteration}".to_string();
    let mut ae = AutoEvolve::new(config);
    ae.begin_iteration();
    assert_eq!(ae.branch_name(), "evo-1-1");
}

#[test]
fn test_pass_detection() {
    assert!(tests_passed("test result: ok. 3 passed; 0 failed"));
    assert!(tests_passed("... 0 failed ..."));
    assert!(!tests_passed("test result: FAILED. 1 passed; 2 failed"));
}

#[test]
fn compiler_lines_name_their_file() {
    assert_eq!(file_of("error[E0308]: mismatched --> src/lib.rs:10:5").as_deref(), Some("src/lib.rs"));
    assert_eq!(file_of("  --> src/main.rs:3:1 warning here").as_deref(), Some("src/main.rs"));
    assert_eq!(file_of("  --> src/lib.rs:10:5"), None);
    assert_eq!(file_of("error --> notes.txt:1"), None);
}

#[test]
fn error_report_lists_errors() {
    let mut ae = AutoEvolve::new_with_defaults();
    ae.begin_iteration();
    let out = "warning: unused --> src/a.rs:1:1\nerror[E0425]: cannot find value\nerror: aborting\nok line";
    let report = ae.error_report(out).unwrap();
    assert_eq!(
        report,
        "Auto-Evolve Fix Report \u{2014} Iteration #1\n========================================\nErrors found: 2\nFirst file: src/a.rs\n\nErrors:\nerror[E0425]: cannot find value\nerror: aborting\n"
    );
    assert_eq!(ae.error_report("all good"), None);
}
