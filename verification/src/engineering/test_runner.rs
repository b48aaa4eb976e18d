//! Test harness: test cases, results, summaries, and reading `cargo` output.
use vstd::prelude::*;
use crate::text::{
    contains_str, dec, has_sub, join, join_with, lines, lines_of, parse_usize, parse_usize_spec,
    push_dec, push_str,
};

verus! {

/// Timeout configuration for test execution.
#[derive(Debug, Clone)]
pub struct TimeoutConfig {
    pub per_test_ms: u64,
    pub total_suite_ms: u64,
}

impl Default for TimeoutConfig {
    fn default() -> (c: Self)
        ensures
            c.per_test_ms == 30000,
            c.total_suite_ms == 300000,
    {
        TimeoutConfig { per_test_ms: 30000, total_suite_ms: 300000 }
    }
}

/// Errors that can occur during test execution.
#[derive(Debug)]
pub enum TestError {
    Timeout(u64),
    CompilationFailed(String),
    BinaryNotFound(String),
    Internal(String),
}

impl TestError {
    /// The error's text, as shown to users.
    pub open spec fn text(&self) -> Seq<char> {
        match self {
            TestError::Timeout(ms) => "test timeout after "@ + dec(*ms as nat) + "ms"@,
            TestError::CompilationFailed(s) => "compilation failed: "@ + s@,
            TestError::BinaryNotFound(s) => "test binary not found: "@ + s@,
            TestError::Internal(s) => "internal error: "@ + s@,
        }
    }

    /// The error's text, as shown to users.
    pub fn message(&self) -> (m: String)
        ensures
            m@ == self.text(),
    {
        let mut m = String::new();
        match self {
            TestError::Timeout(ms) => {
                push_str(&mut m, "test timeout after ");
                push_dec(&mut m, *ms);
                push_str(&mut m, "ms");
            },
            TestError::CompilationFailed(s) => {
                push_str(&mut m, "compilation failed: ");
                push_str(&mut m, s.as_str());
            },
            TestError::BinaryNotFound(s) => {
                push_str(&mut m, "test binary not found: ");
                push_str(&mut m, s.as_str());
            },
            TestError::Internal(s) => {
                push_str(&mut m, "internal error: ");
                push_str(&mut m, s.as_str());
            },
        }
        m
    }
}

/// A single test result.
#[derive(Debug, Clone)]
pub struct TestResult {
    pub name: String,
    pub passed: bool,
    pub duration_ms: u64,
    pub error_message: Option<String>,
}

impl TestResult {
    /// The failed result for the Rust test `name` whose run could not complete.
    pub fn for_failed_run(name: &str, error: &TestError) -> (r: TestResult)
        ensures
            r.name@ == "rust::"@ + name@,
            !r.passed,
            r.duration_ms == 0,
            r.error_message matches Some(m) && m@ == error.text(),
    {
        let mut full = String::new();
        push_str(&mut full, "rust::");
        push_str(&mut full, name);
        TestResult { name: full, passed: false, duration_ms: 0, error_message: Some(error.message()) }
    }
}

/// A Rust test case definition.
#[derive(Debug, Clone)]
pub struct RustTestCase {
    pub name: String,
    pub code: String,
    pub expected_to_pass: bool,
}

/// A Python test case definition.
#[derive(Debug, Clone)]
pub struct PythonTestCase {
    pub name: String,
    pub code: String,
    pub expected_to_pass: bool,
}

/// Number of passing results in `rs`.
pub open spec fn count_passed(rs: Seq<TestResult>) -> nat
    decreases rs.len(),
{
    if rs.len() == 0 {
        0
    } else {
        count_passed(rs.drop_last()) + if rs.last().passed {
            1nat
        } else {
            0nat
        }
    }
}

proof fn lemma_count_passed_bound(rs: Seq<TestResult>)
    ensures
        count_passed(rs) <= rs.len(),
    decreases rs.len(),
{
    if rs.len() > 0 {
        lemma_count_passed_bound(rs.drop_last());
    }
}

/// Summary of a full test run.
#[derive(Debug, Clone)]
pub struct TestSummary {
    pub total: usize,
    pub passed: usize,
    pub failed: usize,
    pub total_duration_ms: u64,
    pub results: Vec<TestResult>,
}

impl TestSummary {
    pub fn passed(&self) -> (n: usize)
        ensures
            n == self.passed,
    {
        self.passed
    }

    pub fn total(&self) -> (n: usize)
        ensures
            n == self.total,
    {
        self.total
    }

    /// Summary of `results` that took `duration_ms`: totals and pass counts.
    pub fn from_results(results: Vec<TestResult>, duration_ms: u64) -> (s: TestSummary)
        ensures
            s.results@ == results@,
            s.total == results.len(),
            s.passed == count_passed(results@),
            s.failed == results.len() - count_passed(results@),
            s.total_duration_ms == duration_ms,
    {
        let mut passed: usize = 0;
        let mut i: usize = 0;
        while i < results.len()
            invariant
                i <= results.len(),
                passed == count_passed(results@.take(i as int)),
                passed <= i,
            decreases results.len() - i,
        {
            assert(results@.take(i + 1).drop_last() =~= results@.take(i as int));
            if results[i].passed {
                passed = passed + 1;
            }
            i = i + 1;
        }
        assert(results@.take(results.len() as int) =~= results@);
        let total = results.len();
        TestSummary { total, passed, failed: total - passed, total_duration_ms: duration_ms, results }
    }

    /// Summary of a run that failed before producing results: no counted tests and
    /// one failed entry named `name` carrying `error`.
    pub fn from_error(name: &str, error: &TestError, duration_ms: u64) -> (s: TestSummary)
        ensures
            s.total == 0 && s.passed == 0 && s.failed == 0,
            s.total_duration_ms == duration_ms,
            s.results@.len() == 1,
            s.results@[0].name@ == name@,
            !s.results@[0].passed,
            s.results@[0].duration_ms == duration_ms,
            s.results@[0].error_message matches Some(m) && m@ == error.text(),
    {
        let mut results: Vec<TestResult> = Vec::new();
        results.push(
            TestResult {
                name: name.to_owned(),
                passed: false,
                duration_ms,
                error_message: Some(error.message()),
            },
        );
        TestSummary { total: 0, passed: 0, failed: 0, total_duration_ms: duration_ms, results }
    }
}

/// Multi-language test harness.
pub struct TestHarness {
    config: TimeoutConfig,
    rust_tests: Vec<RustTestCase>,
    python_tests: Vec<PythonTestCase>,
}

/// Name of a Python result.
pub open spec fn python_result_name(test_name: Seq<char>) -> Seq<char> {
    "python::"@ + test_name
}

impl TestHarness {
    /// The harness's timeouts.
    pub closed spec fn config_view(&self) -> TimeoutConfig {
        self.config
    }

    /// The registered Rust test cases.
    pub closed spec fn rust_tests_view(&self) -> Seq<RustTestCase> {
        self.rust_tests@
    }

    /// The registered Python test cases.
    pub closed spec fn python_tests_view(&self) -> Seq<PythonTestCase> {
        self.python_tests@
    }

    pub fn new(config: TimeoutConfig) -> (h: Self)
        ensures
            h.config_view() == config,
            h.rust_tests_view().len() == 0,
            h.python_tests_view().len() == 0,
    {
        TestHarness { config, rust_tests: Vec::new(), python_tests: Vec::new() }
    }

    pub fn new_with_defaults() -> (h: Self)
        ensures
            h.config_view().per_test_ms == 30000,
            h.config_view().total_suite_ms == 300000,
            h.rust_tests_view().len() == 0,
            h.python_tests_view().len() == 0,
    {
        Self::new(TimeoutConfig::default())
    }

    /// The per-test timeout in milliseconds.
    pub fn per_test_ms(&self) -> (ms: u64)
        ensures
            ms == self.config_view().per_test_ms,
    {
        self.config.per_test_ms
    }

    /// Names of the registered Rust test cases, in order.
    pub fn rust_test_names(&self) -> (names: Vec<String>)
        ensures
            names@.len() == self.rust_tests_view().len(),
            forall|i: int| 0 <= i < names@.len() ==> names@[i]@ == #[trigger] self.rust_tests_view()[i].name@,
    {
        let mut names: Vec<String> = Vec::new();
        let mut i: usize = 0;
        while i < self.rust_tests.len()
            invariant
                i <= self.rust_tests.len(),
                names@.len() == i,
                forall|j: int| 0 <= j < i ==> names@[j]@ == #[trigger] self.rust_tests@[j].name@,
            decreases self.rust_tests.len() - i,
        {
            names.push(self.rust_tests[i].name.clone());
            i = i + 1;
        }
        names
    }

    pub fn add_rust_test(&mut self, test: RustTestCase)
        ensures
            final(self).rust_tests_view() == old(self).rust_tests_view().push(test),
            final(self).python_tests_view() == old(self).python_tests_view(),
            final(self).config_view() == old(self).config_view(),
    {
        self.rust_tests.push(test);
    }

    pub fn add_python_test(&mut self, test: PythonTestCase)
        ensures
            final(self).python_tests_view() == old(self).python_tests_view().push(test),
            final(self).rust_tests_view() == old(self).rust_tests_view(),
            final(self).config_view() == old(self).config_view(),
    {
        self.python_tests.push(test);
    }

    /// Python tests are not executed: each registered case reports its expected
    /// outcome ("Expected failure" when expected to fail), taking 3 ms.
    pub fn run_python_tests(&self) -> (s: TestSummary)
        ensures
            s.results@.len() == self.python_tests_view().len(),
            forall|i: int|
                0 <= i < s.results@.len() ==> {
                    let r = #[trigger] s.results@[i];
                    let t = self.python_tests_view()[i];
                    &&& r.name@ == python_result_name(t.name@)
                    &&& r.passed == t.expected_to_pass
                    &&& r.duration_ms == 3
                    &&& if t.expected_to_pass {
                        r.error_message is None
                    } else {
                        r.error_message matches Some(m) && m@ == "Expected failure"@
                    }
                },
            s.total == s.results@.len(),
            s.passed == count_passed(s.results@),
            s.failed == s.total - s.passed,
    {
        let start = crate::clock::instant_now();
        let mut results: Vec<TestResult> = Vec::new();
        let mut i: usize = 0;
        while i < self.python_tests.len()
            invariant
                i <= self.python_tests.len(),
                results@.len() == i,
                forall|j: int|
                    0 <= j < i ==> {
                        let r = #[trigger] results@[j];
                        let t = self.python_tests@[j];
                        &&& r.name@ == python_result_name(t.name@)
                        &&& r.passed == t.expected_to_pass
                        &&& r.duration_ms == 3
                        &&& if t.expected_to_pass {
                            r.error_message is None
                        } else {
                            r.error_message matches Some(m) && m@ == "Expected failure"@
                        }
                    },
            decreases self.python_tests.len() - i,
        {
            let test = &self.python_tests[i];
            let mut name = String::new();
            push_str(&mut name, "python::");
            push_str(&mut name, test.name.as_str());
            let error_message = if test.expected_to_pass {
                None
            } else {
                Some("Expected failure".to_owned())
            };
            results.push(
                TestResult { name, passed: test.expected_to_pass, duration_ms: 3, error_message },
            );
            i = i + 1;
        }
        let duration = crate::clock::elapsed_millis(&start);
        TestSummary::from_results(results, duration)
    }

    /// Collected results are not retained by the harness: always empty.
    pub fn results(&self) -> (r: Vec<TestResult>)
        ensures
            r@.len() == 0,
    {
        Vec::new()
    }
}

/// Name for what the `regex` crate yields when `pattern` is compiled with
/// `Regex::new` and matched against `text` with `Regex::captures`: `None` when the
/// pattern does not compile or does not match, else the text of each capture group
/// in order (group 0 the whole match), `None` for a group that took no part.
pub uninterp spec fn regex_captures_of(pattern: Seq<char>, text: Seq<char>) -> Option<
    Seq<Option<Seq<char>>>,
>;

/// The character views of a list of capture groups.
pub open spec fn captures_view(c: Option<Vec<Option<String>>>) -> Option<Seq<Option<Seq<char>>>> {
    match c {
        Some(v) => Some(
            v@.map_values(
                |g: Option<String>|
                    match g {
                        Some(s) => Some(s@),
                        None => None,
                    },
            ),
        ),
        None => None,
    }
}

/// `regex::Regex::new(pattern)` followed by `Regex::captures(text)`, each group's
/// match taken as a `String`; a pattern that does not compile gives `None`, as a
/// text that does not match does. The result is named by `regex_captures_of`.
#[verifier::external_body]
fn regex_captures(pattern: &str, text: &str) -> (r: Option<Vec<Option<String>>>)
    ensures
        captures_view(r) == regex_captures_of(pattern@, text@),
{
    match regex::Regex::new(pattern) {
        Ok(re) => re.captures(text).map(
            |caps| caps.iter().map(|m| m.map(|x| x.as_str().to_string())).collect(),
        ),
        Err(_) => None,
    }
}

/// Group `i` of `caps`, if it exists and took part in the match.
pub open spec fn group(caps: Seq<Option<Seq<char>>>, i: int) -> Option<Seq<char>> {
    if 0 <= i < caps.len() {
        caps[i]
    } else {
        None
    }
}

/// The pattern of a per-test line of `cargo test` output.
pub open spec fn test_line_pattern() -> Seq<char> {
    r"^\s*test\s+(.+?)\s+\.\.\.\s+(ok|FAILED)\s*$"@
}

/// The pattern of the summary line of `cargo test` output.
pub open spec fn summary_line_pattern() -> Seq<char> {
    r"test result:\s+(ok|FAILED)\.\s*(\d+)\s+passed;\s*(\d+)\s+failed"@
}

/// A test line's name and outcome, read from its capture groups: group 1 is the
/// name and group 2 passes when it reads `ok`.
pub open spec fn test_line_of(caps: Option<Seq<Option<Seq<char>>>>) -> Option<(Seq<char>, bool)> {
    match caps {
        Some(c) => match (group(c, 1), group(c, 2)) {
            (Some(name), Some(outcome)) => Some((name, outcome == "ok"@)),
            _ => None,
        },
        None => None,
    }
}

/// A summary line's outcome and counts, read from its capture groups: group 1 is
/// the outcome, groups 2 and 3 the passed and failed counts as decimal `usize`s.
pub open spec fn summary_line_of(caps: Option<Seq<Option<Seq<char>>>>) -> Option<
    (bool, usize, usize),
> {
    match caps {
        Some(c) => match (group(c, 1), group(c, 2), group(c, 3)) {
            (Some(outcome), Some(p), Some(f)) => match (parse_usize_spec(p), parse_usize_spec(f)) {
                (Some(np), Some(nf)) => Some((outcome == "ok"@, np, nf)),
                _ => None,
            },
            _ => None,
        },
        None => None,
    }
}

/// The character view of a parsed test line.
pub open spec fn named_outcome_view(r: Option<(String, bool)>) -> Option<(Seq<char>, bool)> {
    match r {
        Some((n, p)) => Some((n@, p)),
        None => None,
    }
}

/// Group `i` of `caps` as an owned string, if present.
fn group_text(caps: &Vec<Option<String>>, i: usize) -> (g: Option<String>)
    ensures
        captures_view(Some(*caps)) matches Some(c) && (match (g, group(c, i as int)) {
            (Some(s), Some(t)) => s@ == t,
            (None, None) => true,
            _ => false,
        }),
{
    if i < caps.len() {
        match &caps[i] {
            Some(s) => Some(s.clone()),
            None => None,
        }
    } else {
        None
    }
}

/// `s` reads `ok`.
fn is_ok_text(s: &String) -> (b: bool)
    ensures
        b == (s@ == "ok"@),
{
    let ok = "ok".to_owned();
    proof {
        reveal_strlit("ok");
    }
    *s == ok
}

impl TestHarness {
    /// Reads a per-test line from the capture groups of its match (see `test_line_of`).
    pub fn test_line_from_captures(caps: &Option<Vec<Option<String>>>) -> (r: Option<(String, bool)>)
        ensures
            named_outcome_view(r) == test_line_of(captures_view(*caps)),
    {
        match caps {
            Some(c) => {
                let name = group_text(c, 1);
                let outcome = group_text(c, 2);
                match (name, outcome) {
                    (Some(n), Some(o)) => {
                        let passed = is_ok_text(&o);
                        Some((n, passed))
                    },
                    _ => None,
                }
            },
            None => None,
        }
    }

    /// Parses `test <name> ... ok|FAILED` from one line of `cargo test` output.
    pub fn parse_test_line(line: &str) -> (r: Option<(String, bool)>)
        ensures
            named_outcome_view(r) == test_line_of(regex_captures_of(test_line_pattern(), line@)),
    {
        let caps = regex_captures(r"^\s*test\s+(.+?)\s+\.\.\.\s+(ok|FAILED)\s*$", line);
        Self::test_line_from_captures(&caps)
    }

    /// Reads a summary line from the capture groups of its match (see
    /// `summary_line_of`).
    pub fn summary_line_from_captures(caps: &Option<Vec<Option<String>>>) -> (r: Option<(bool, usize, usize)>)
        ensures
            r == summary_line_of(captures_view(*caps)),
    {
        match caps {
            Some(c) => {
                let outcome = group_text(c, 1);
                let p = group_text(c, 2);
                let f = group_text(c, 3);
                match (outcome, p, f) {
                    (Some(o), Some(ps), Some(fs)) => {
                        let np = parse_usize(ps.as_str());
                        let nf = parse_usize(fs.as_str());
                        match (np, nf) {
                            (Some(a), Some(b)) => Some((is_ok_text(&o), a, b)),
                            _ => None,
                        }
                    },
                    _ => None,
                }
            },
            None => None,
        }
    }

    /// Parses `test result: ok|FAILED. N passed; M failed` from one line of
    /// `cargo test` output.
    pub fn parse_summary_line(line: &str) -> (r: Option<(bool, usize, usize)>)
        ensures
            r == summary_line_of(regex_captures_of(summary_line_pattern(), line@)),
    {
        let caps = regex_captures(r"test result:\s+(ok|FAILED)\.\s*(\d+)\s+passed;\s*(\d+)\s+failed", line);
        Self::summary_line_from_captures(&caps)
    }
}

/// `l` reports a compiler error (`error[` or `error:`), or, when `warnings`, also a
/// warning (`warning:`).
pub open spec fn is_diagnostic(l: Seq<char>, warnings: bool) -> bool {
    has_sub(l, "error["@) || has_sub(l, "error:"@) || (warnings && has_sub(l, "warning:"@))
}

/// The lines of `ls` that are diagnostics (see `is_diagnostic`), in order.
pub open spec fn diagnostics(ls: Seq<Seq<char>>, warnings: bool) -> Seq<Seq<char>>
    decreases ls.len(),
{
    if ls.len() == 0 {
        Seq::empty()
    } else {
        let rest = diagnostics(ls.drop_last(), warnings);
        if is_diagnostic(ls.last(), warnings) {
            rest.push(ls.last())
        } else {
            rest
        }
    }
}

/// The compiler errors collected from a test run's output are exactly its lines
/// that hold `error[` or `error:`, in order, so a line that only warns is never
/// among them; a check run also collects the lines that hold `warning:`.
pub proof fn lemma_diagnostics_are_error_lines(ls: Seq<Seq<char>>)
    ensures
        diagnostics(ls, false) == ls.filter(|l: Seq<char>| has_sub(l, "error["@) || has_sub(l, "error:"@)),
        diagnostics(ls, true) == ls.filter(
            |l: Seq<char>| has_sub(l, "error["@) || has_sub(l, "error:"@) || has_sub(l, "warning:"@),
        ),
    decreases ls.len(),
{
    reveal(Seq::filter);
    if ls.len() > 0 {
        lemma_diagnostics_are_error_lines(ls.drop_last());
    }
}

/// The per-test lines among `ls`, read as names and outcomes, in order.
pub open spec fn parsed_tests(ls: Seq<Seq<char>>) -> Seq<(Seq<char>, bool)>
    decreases ls.len(),
{
    if ls.len() == 0 {
        Seq::empty()
    } else {
        let rest = parsed_tests(ls.drop_last());
        match test_line_of(regex_captures_of(test_line_pattern(), ls.last())) {
            Some(p) => rest.push(p),
            None => rest,
        }
    }
}

/// `r` is the result reported for a Rust test named `name` with outcome `passed`.
pub open spec fn is_rust_result(r: TestResult, name: Seq<char>, passed: bool) -> bool {
    &&& r.name@ == "rust::"@ + name
    &&& r.passed == passed
    &&& r.duration_ms == 0
    &&& if passed {
        r.error_message is None
    } else {
        r.error_message matches Some(m) && m@ == "Test failed"@
    }
}

/// The results `rs` report the parsed tests `ps`, one for one.
pub open spec fn reports(rs: Seq<TestResult>, ps: Seq<(Seq<char>, bool)>) -> bool {
    &&& rs.len() == ps.len()
    &&& forall|i: int| 0 <= i < rs.len() ==> is_rust_result(#[trigger] rs[i], ps[i].0, ps[i].1)
}

/// The diagnostic lines of `ls` (see `diagnostics`).
fn diagnostic_lines(ls: &Vec<String>, warnings: bool) -> (ds: Vec<String>)
    ensures
        ds@.map_values(|x: String| x@) == diagnostics(ls@.map_values(|x: String| x@), warnings),
{
    let ghost lv = ls@.map_values(|x: String| x@);
    let mut ds: Vec<String> = Vec::new();
    let mut i: usize = 0;
    while i < ls.len()
        invariant
            i <= ls.len(),
            lv == ls@.map_values(|x: String| x@),
            ds@.map_values(|x: String| x@) == diagnostics(lv.take(i as int), warnings),
        decreases ls.len() - i,
    {
        let l = ls[i].as_str();
        let d = contains_str(l, "error[") || contains_str(l, "error:") || (warnings && contains_str(
            l,
            "warning:",
        ));
        proof {
            assert(lv.take(i + 1).drop_last() =~= lv.take(i as int));
            assert(lv.take(i + 1).last() == ls@[i as int]@);
        }
        if d {
            ds.push(ls[i].clone());
            proof {
                assert(ds@.map_values(|x: String| x@) =~= diagnostics(lv.take(i as int), warnings).push(
                    lv[i as int],
                ));
            }
        }
        i = i + 1;
    }
    assert(lv.take(ls.len() as int) =~= lv);
    ds
}

impl TestHarness {
    /// Reads the output of a `cargo test` run: a result named `rust::<name>` for each
    /// per-test line of `stdout` (see `reports`), and the diagnostic lines of
    /// `stderr`. A run that failed (`!status_ok`) with no per-test line and at least
    /// one diagnostic is a compilation failure carrying the diagnostics joined by
    /// newlines.
    pub fn collect_test_output(stdout: &str, stderr: &str, status_ok: bool) -> (r: Result<
        (Vec<TestResult>, Vec<String>),
        TestError,
    >)
        ensures
            ({
                let ps = parsed_tests(lines_of(stdout@));
                let ds = diagnostics(lines_of(stderr@), false);
                match r {
                    Ok((rs, es)) => {
                        &&& status_ok || ps.len() > 0 || ds.len() == 0
                        &&& reports(rs@, ps)
                        &&& es@.map_values(|x: String| x@) == ds
                    },
                    Err(e) => {
                        &&& !status_ok && ps.len() == 0 && ds.len() > 0
                        &&& e matches TestError::CompilationFailed(m) && m@ == join_with(ds, "\n"@)
                    },
                }
            }),
    {
        let out = lines(stdout);
        let ghost ov = out@.map_values(|x: String| x@);
        let mut results: Vec<TestResult> = Vec::new();
        let mut i: usize = 0;
        while i < out.len()
            invariant
                i <= out.len(),
                ov == out@.map_values(|x: String| x@),
                reports(results@, parsed_tests(ov.take(i as int))),
            decreases out.len() - i,
        {
            let parsed = Self::parse_test_line(out[i].as_str());
            proof {
                assert(ov.take(i + 1).drop_last() =~= ov.take(i as int));
                assert(ov.take(i + 1).last() == out@[i as int]@);
            }
            match parsed {
                Some((name, passed)) => {
                    let mut full = String::new();
                    push_str(&mut full, "rust::");
                    push_str(&mut full, name.as_str());
                    let error_message = if passed {
                        None
                    } else {
                        Some("Test failed".to_owned())
                    };
                    let ghost before = results@;
                    results.push(TestResult { name: full, passed, duration_ms: 0, error_message });
                    proof {
                        let ps = parsed_tests(ov.take(i + 1));
                        assert(ps == parsed_tests(ov.take(i as int)).push((name@, passed)));
                        assert forall|k: int| 0 <= k < results@.len() implies is_rust_result(
                            #[trigger] results@[k],
                            ps[k].0,
                            ps[k].1,
                        ) by {
                            if k < before.len() {
                                assert(results@[k] == before[k]);
                            }
                        }
                    }
                },
                None => {},
            }
            i = i + 1;
        }
        assert(ov.take(out.len() as int) =~= ov);
        let err = lines(stderr);
        let errors = diagnostic_lines(&err, false);
        if !status_ok && results.len() == 0 && errors.len() > 0 {
            return Err(TestError::CompilationFailed(join(&errors, "\n")));
        }
        Ok((results, errors))
    }

    /// The summary of a `cargo check` run that took `duration_ms`: one result named
    /// `cargo check` that passes when the run did; a failed run carries its
    /// diagnostic lines (warnings included) joined by newlines, or `cargo check
    /// failed` when there are none.
    pub fn check_outcome(stderr: &str, status_ok: bool, duration_ms: u64) -> (s: TestSummary)
        ensures
            s.total == 1,
            s.passed == (if status_ok { 1usize } else { 0usize }),
            s.failed == (if status_ok { 0usize } else { 1usize }),
            s.total_duration_ms == duration_ms,
            s.results@.len() == 1,
            s.results@[0].name@ == "cargo check"@,
            s.results@[0].passed == status_ok,
            s.results@[0].duration_ms == duration_ms,
            ({
                let ds = diagnostics(lines_of(stderr@), true);
                match s.results@[0].error_message {
                    None => status_ok,
                    Some(m) => !status_ok && (if ds.len() == 0 {
                        m@ == "cargo check failed"@
                    } else {
                        m@ == join_with(ds, "\n"@)
                    }),
                }
            }),
    {
        let error_message = if status_ok {
            None
        } else {
            let err = lines(stderr);
            let msgs = diagnostic_lines(&err, true);
            if msgs.len() == 0 {
                Some("cargo check failed".to_owned())
            } else {
                Some(join(&msgs, "\n"))
            }
        };
        let mut results: Vec<TestResult> = Vec::new();
        results.push(
            TestResult {
                name: "cargo check".to_owned(),
                passed: status_ok,
                duration_ms,
                error_message,
            },
        );
        TestSummary {
            total: 1,
            passed: if status_ok {
                1
            } else {
                0
            },
            failed: if status_ok {
                0
            } else {
                1
            },
            total_duration_ms: duration_ms,
            results,
        }
    }
}

} // verus!
