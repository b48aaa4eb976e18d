use omega_agi::engineering::test_runner::{
    PythonTestCase, RustTestCase, TestError, TestHarness, TestResult, TestSummary, TimeoutConfig,
};

#[test]
fn parses_test_lines() {
    assert_eq!(
        TestHarness::parse_test_line("test tests::it_works ... ok"),
        Some(("tests::it_works".to_string(), true))
    );
    assert_eq!(
        TestHarness::parse_test_line("   test a::b ... FAILED  "),
        Some(("a::b".to_string(), false))
    );
    assert_eq!(TestHarness::parse_test_line("running 3 tests"), None);
}

#[test]
fn parses_summary_lines() {
    assert_eq!(
        TestHarness::parse_summary_line("test result: ok. 12 passed; 0 failed; 0 ignored"),
        Some((true, 12, 0))
    );
    assert_eq!(
        TestHarness::parse_summary_line("test result: FAILED. 1 passed; 2 failed;"),
        Some((false, 1, 2))
    );
    assert_eq!(TestHarness::parse_summary_line("nothing"), None);
    assert_eq!(
        TestHarness::parse_summary_line("test result: ok. 99999999999999999999999 passed; 0 failed"),
        None
    );
}

#[test]
fn collects_cargo_output() {
    let stdout = "running 2 tests\ntest a ... ok\ntest b ... FAILED\n";
    let (results, errors) = TestHarness::collect_test_output(stdout, "", false).ok().unwrap();
    assert_eq!(results.len(), 2);
    assert_eq!(results[0].name, "rust::a");
    assert!(results[0].passed);
    assert_eq!(results[1].error_message.as_deref(), Some("Test failed"));
    assert!(errors.is_empty());
}

#[test]
fn compilation_failure_when_nothing_ran() {
    let stderr = "error[E0425]: cannot find value `x`\nnote: something\nerror: could not compile";
    match TestHarness::collect_test_output("", stderr, false) {
        Err(TestError::CompilationFailed(m)) => {
            assert_eq!(m, "error[E0425]: cannot find value `x`\nerror: could not compile")
        }
        _ => panic!("expected a compilation failure"),
    }
    assert!(TestHarness::collect_test_output("", stderr, true).is_ok());
}

#[test]
fn check_outcome_messages() {
    let ok = TestHarness::check_outcome("", true, 5);
    assert_eq!((ok.total, ok.passed, ok.failed), (1, 1, 0));
    assert!(ok.results[0].error_message.is_none());
    let bad = TestHarness::check_outcome("warning: x\nplain", false, 5);
    assert_eq!(bad.results[0].error_message.as_deref(), Some("warning: x"));
    let bare = TestHarness::check_outcome("plain", false, 5);
    assert_eq!(bare.results[0].error_message.as_deref(), Some("cargo check failed"));
}

#[test]
fn python_tests_report_expectations() {
    let mut h = TestHarness::new_with_defaults();
    assert_eq!(h.per_test_ms(), 30000);
    h.add_python_test(PythonTestCase { name: "p1".to_string(), code: String::new(), expected_to_pass: true });
    h.add_python_test(PythonTestCase { name: "p2".to_string(), code: String::new(), expected_to_pass: false });
    h.add_rust_test(RustTestCase { name: "r1".to_string(), code: String::new(), expected_to_pass: true });
    let s = h.run_python_tests();
    assert_eq!((s.total, s.passed, s.failed), (2, 1, 1));
    assert_eq!(s.results[0].name, "python::p1");
    assert_eq!(s.results[1].error_message.as_deref(), Some("Expected failure"));
    assert_eq!(s.results[1].duration_ms, 3);
    assert_eq!(h.rust_test_names(), vec!["r1".to_string()]);
    assert!(h.results().is_empty());
}

#[test]
fn summaries_and_errors() {
    let results = vec![
        TestResult { name: "a".to_string(), passed: true, duration_ms: 0, error_message: None },
        TestResult { name: "b".to_string(), passed: false, duration_ms: 0, error_message: None },
    ];
    let s = TestSummary::from_results(results, 9);
    assert_eq!((s.total(), s.passed(), s.failed), (2, 1, 1));
    let e = TestSummary::from_error("cargo test", &TestError::Timeout(250), 4);
    assert_eq!(e.results[0].error_message.as_deref(), Some("test timeout after 250ms"));
    assert_eq!(TestError::BinaryNotFound("x".to_string()).message(), "test binary not found: x");
    let r = TestResult::for_failed_run("t", &TestError::Internal("boom".to_string()));
    assert_eq!(r.name, "rust::t");
    assert_eq!(r.error_message.as_deref(), Some("internal error: boom"));
    let d = TimeoutConfig::default();
    assert_eq!((d.per_test_ms, d.total_suite_ms), (30000, 300000));
}
