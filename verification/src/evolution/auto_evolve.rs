//! The auto-evolve cycle's decisions: iteration numbering, branch names, whether a
//! test run passed, and the report of compile errors.
use vstd::prelude::*;
use crate::text::{
    chars_of, contains_str, dec, find, find_spec, has_sub, join, join_with, lines, lines_of,
    push_dec, push_str, replace_all, replace_str, starts_with, sub_chars, trim_range, trimmed,
};

verus! {

/// Settings of the auto-evolve cycle.
#[derive(Debug, Clone)]
pub struct AutoEvolveConfig {
    /// Most fix attempts after failing tests.
    pub max_fix_retries: u32,
    /// Test timeout in seconds.
    pub test_timeout_secs: u64,
    /// Push the branch after committing.
    pub auto_push: bool,
    /// Open a pull request.
    pub create_pr: bool,
    /// Workspace root directory.
    pub workspace_root: String,
    /// Git remote.
    pub git_remote: String,
    /// Branch name template; `{iteration}` is replaced by the iteration number.
    pub branch_template: String,
    /// Branch to switch back to.
    pub default_branch: String,
}

impl Default for AutoEvolveConfig {
    fn default() -> (c: Self)
        ensures
            c.max_fix_retries == 3,
            c.test_timeout_secs == 300,
            !c.auto_push,
            !c.create_pr,
            c.workspace_root@ == "."@,
            c.git_remote@ == "origin"@,
            c.branch_template@ == "auto-evolve/iteration-{iteration}"@,
            c.default_branch@ == "master"@,
    {
        AutoEvolveConfig {
            max_fix_retries: 3,
            test_timeout_secs: 300,
            auto_push: false,
            create_pr: false,
            workspace_root: ".".to_owned(),
            git_remote: "origin".to_owned(),
            branch_template: "auto-evolve/iteration-{iteration}".to_owned(),
            default_branch: "master".to_owned(),
        }
    }
}

/// A test run passed when its output reports `test result: ok` or `0 failed`.
pub open spec fn run_passed(output: Seq<char>) -> bool {
    has_sub(output, "test result: ok"@) || has_sub(output, "0 failed"@)
}

/// A test run counts as passed exactly when its output says `test result: ok` or
/// `0 failed`.
pub proof fn lemma_run_passed_markers(output: Seq<char>)
    ensures
        run_passed(output) <==> (has_sub(output, "test result: ok"@) || has_sub(output, "0 failed"@)),
{
}

/// Whether the test output reports a pass (see `run_passed`).
pub fn tests_passed(output: &str) -> (b: bool)
    ensures
        b == run_passed(output@),
{
    contains_str(output, "test result: ok") || contains_str(output, "0 failed")
}

/// `s` ends with `p`.
pub open spec fn ends_with(s: Seq<char>, p: Seq<char>) -> bool {
    p.len() <= s.len() && s.skip(s.len() - p.len()) == p
}

/// The source file that a compiler line `--> path.rs:line:col` mentioning an error or
/// a warning points at.
pub open spec fn file_of_line(line: Seq<char>) -> Option<Seq<char>> {
    if !(has_sub(line, "-->"@) && (has_sub(line, "error"@) || has_sub(line, "warning"@))) {
        None
    } else {
        match find_spec(line, "-->"@) {
            None => None,
            Some(i) => {
                let after = line.skip(i + 3);
                let seg = match find_spec(after, "-->"@) {
                    Some(j) => after.take(j),
                    None => after,
                };
                let t = trimmed(seg);
                let part = match find_spec(t, ":"@) {
                    Some(c) => t.take(c),
                    None => t,
                };
                let path = trimmed(part);
                if path.len() > 0 && ends_with(path, ".rs"@) {
                    Some(path)
                } else {
                    None
                }
            },
        }
    }
}

/// `line` reports a compile error.
pub open spec fn is_error_line(line: Seq<char>) -> bool {
    has_sub(line, "error[E"@) || starts_with(line, "error:"@)
}

/// The error lines among `ls`, in order.
pub open spec fn error_lines(ls: Seq<Seq<char>>) -> Seq<Seq<char>>
    decreases ls.len(),
{
    if ls.len() == 0 {
        Seq::empty()
    } else if is_error_line(ls.last()) {
        error_lines(ls.drop_last()).push(ls.last())
    } else {
        error_lines(ls.drop_last())
    }
}

/// The error lines of a test output are exactly, in order, its lines that hold
/// `error[E` or begin with `error:`; warnings and other lines are left out.
pub proof fn lemma_error_lines_filter(ls: Seq<Seq<char>>)
    ensures
        error_lines(ls) == ls.filter(|l: Seq<char>| has_sub(l, "error[E"@) || starts_with(l, "error:"@)),
    decreases ls.len(),
{
    reveal(Seq::filter);
    if ls.len() > 0 {
        lemma_error_lines_filter(ls.drop_last());
    }
}

/// The file of the last line of `ls` that names one.
pub open spec fn last_file(ls: Seq<Seq<char>>) -> Option<Seq<char>>
    decreases ls.len(),
{
    if ls.len() == 0 {
        None
    } else {
        match file_of_line(ls.last()) {
            Some(f) => Some(f),
            None => last_file(ls.drop_last()),
        }
    }
}

/// The compile-error report of iteration `iteration` for the test output whose
/// lines are `ls`, when it holds errors.
pub open spec fn fix_report(iteration: u64, ls: Seq<Seq<char>>) -> Option<Seq<char>> {
    let es = error_lines(ls);
    if es.len() == 0 {
        None
    } else {
        Some(
            "Auto-Evolve Fix Report \u{2014} Iteration #"@ + dec(iteration as nat)
                + "\n========================================\nErrors found: "@ + dec(es.len())
                + "\nFirst file: "@ + match last_file(ls) {
                Some(f) => f,
                None => "unknown"@,
            } + "\n\nErrors:\n"@ + join_with(es, "\n"@) + "\n"@,
        )
    }
}

/// Whether `s` begins with `p`.
fn begins_with(s: &Vec<char>, p: &str) -> (b: bool)
    ensures
        b == starts_with(s@, p@),
{
    let pv = chars_of(p);
    if pv.len() > s.len() {
        return false;
    }
    let mut i: usize = 0;
    while i < pv.len()
        invariant
            pv.len() <= s.len(),
            i <= pv.len(),
            pv@ == p@,
            forall|j: int| 0 <= j < i ==> s@[j] == pv@[j],
        decreases pv.len() - i,
    {
        if s[i] != pv[i] {
            assert(s@.subrange(0, pv@.len() as int)[i as int] != pv@[i as int]);
            return false;
        }
        i = i + 1;
    }
    assert(s@.subrange(0, pv@.len() as int) =~= pv@);
    true
}

/// The file a compiler line points at (see `file_of_line`).
pub fn file_of(line: &str) -> (r: Option<String>)
    ensures
        match r {
            Some(f) => file_of_line(line@) == Some(f@),
            None => file_of_line(line@) is None,
        },
{
    if !(contains_str(line, "-->") && (contains_str(line, "error") || contains_str(line, "warning"))) {
        return None;
    }
    let cv = chars_of(line);
    let n = cv.len();
    let i = match find(&cv, "-->") {
        Some(i) => i,
        None => return None,
    };
    proof {
        reveal_strlit("-->");
        reveal_strlit(":");
        reveal_strlit(".rs");
    }
    assert(i + 3 <= n);
    let after = sub_chars(&cv, i + 3, n);
    assert(after@ =~= cv@.skip(i + 3));
    let seg_end = match find(&after, "-->") {
        Some(j) => j,
        None => after.len(),
    };
    assert(after@.take(seg_end as int) =~= after@.subrange(0, seg_end as int));
    assert(after@.subrange(0, after@.len() as int) =~= after@);
    let t = trim_range(&after, 0, seg_end);
    let tv = chars_of(t.as_str());
    let part_end = match find(&tv, ":") {
        Some(c) => c,
        None => tv.len(),
    };
    assert(tv@.take(part_end as int) =~= tv@.subrange(0, part_end as int));
    assert(tv@.subrange(0, tv@.len() as int) =~= tv@);
    let path = trim_range(&tv, 0, part_end);
    let pv = chars_of(path.as_str());
    let m = pv.len();
    if m == 0 || m < 3 {
        return None;
    }
    let tail = sub_chars(&pv, m - 3, m);
    assert(tail@ =~= pv@.skip(m - 3));
    if tail[0] == '.' && tail[1] == 'r' && tail[2] == 's' {
        assert(tail@ =~= ".rs"@);
        Some(path)
    } else {
        assert(tail@ != ".rs"@) by {
            if tail@ == ".rs"@ {
                assert(tail@[0] == '.' && tail@[1] == 'r' && tail@[2] == 's');
            }
        }
        None
    }
}

/// The auto-evolve engine: its settings and how many iterations it has begun.
pub struct AutoEvolve {
    config: AutoEvolveConfig,
    iteration: u64,
}

impl AutoEvolve {
    /// The settings.
    pub closed spec fn config_view(&self) -> AutoEvolveConfig {
        self.config
    }

    /// Iterations begun so far.
    pub closed spec fn iterations(&self) -> u64 {
        self.iteration
    }

    pub fn new(config: AutoEvolveConfig) -> (a: Self)
        ensures
            a.config_view() == config,
            a.iterations() == 0,
    {
        AutoEvolve { config, iteration: 0 }
    }

    pub fn new_with_defaults() -> (a: Self)
        ensures
            a.config_view().max_fix_retries == 3,
            a.config_view().test_timeout_secs == 300,
            !a.config_view().auto_push,
            !a.config_view().create_pr,
            a.config_view().workspace_root@ == "."@,
            a.config_view().git_remote@ == "origin"@,
            a.config_view().branch_template@ == "auto-evolve/iteration-{iteration}"@,
            a.config_view().default_branch@ == "master"@,
            a.iterations() == 0,
    {
        AutoEvolve::new(AutoEvolveConfig::default())
    }

    pub fn iteration(&self) -> (n: u64)
        ensures
            n == self.iterations(),
    {
        self.iteration
    }

    pub fn config(&self) -> (c: &AutoEvolveConfig)
        ensures
            *c == self.config_view(),
    {
        &self.config
    }

    /// Starts the next iteration and returns its number.
    pub fn begin_iteration(&mut self) -> (n: u64)
        requires
            old(self).iterations() < u64::MAX,
        ensures
            n == old(self).iterations() + 1,
            final(self).iterations() == n,
            final(self).config_view() == old(self).config_view(),
    {
        self.iteration = self.iteration + 1;
        self.iteration
    }

    /// The branch the current iteration commits to: the template with
    /// `{iteration}` replaced by the iteration number.
    pub fn branch_name(&self) -> (b: String)
        ensures
            b@ == replace_all(self.config_view().branch_template@, "{iteration}"@, dec(self.iterations() as nat)),
    {
        let mut num = String::new();
        push_dec(&mut num, self.iteration);
        proof {
            reveal_strlit("{iteration}");
        }
        replace_str(self.config.branch_template.as_str(), "{iteration}", num.as_str())
    }

    /// The compile-error report for `test_output`, when it holds errors (see
    /// `fix_report`).
    pub fn error_report(&self, test_output: &str) -> (r: Option<String>)
        ensures
            match r {
                Some(s) => fix_report(self.iterations(), lines_of(test_output@)) == Some(s@),
                None => fix_report(self.iterations(), lines_of(test_output@)) is None,
            },
    {
        let ls = lines(test_output);
        let ghost lv = ls@.map_values(|x: String| x@);
        let mut errors: Vec<String> = Vec::new();
        let mut file: Option<String> = None;
        let mut i: usize = 0;
        while i < ls.len()
            invariant
                i <= ls.len(),
                lv == ls@.map_values(|x: String| x@),
                errors@.map_values(|x: String| x@) == error_lines(lv.take(i as int)),
                match file {
                    Some(f) => last_file(lv.take(i as int)) == Some(f@),
                    None => last_file(lv.take(i as int)) is None,
                },
            decreases ls.len() - i,
        {
            let line = ls[i].as_str();
            proof {
                assert(lv.take(i + 1).drop_last() =~= lv.take(i as int));
                assert(lv.take(i + 1).last() == line@);
            }
            match file_of(line) {
                Some(f) => {
                    file = Some(f);
                },
                None => {},
            }
            let lc = chars_of(line);
            if contains_str(line, "error[E") || begins_with(&lc, "error:") {
                let ghost before = errors@.map_values(|x: String| x@);
                errors.push(ls[i].clone());
                assert(errors@.map_values(|x: String| x@) =~= before.push(line@));
            }
            i = i + 1;
        }
        assert(lv.take(ls.len() as int) =~= lv);
        if errors.len() == 0 {
            return None;
        }
        let mut r = String::new();
        push_str(&mut r, "Auto-Evolve Fix Report \u{2014} Iteration #");
        push_dec(&mut r, self.iteration);
        push_str(&mut r, "\n========================================\nErrors found: ");
        push_dec(&mut r, errors.len() as u64);
        push_str(&mut r, "\nFirst file: ");
        match &file {
            Some(f) => push_str(&mut r, f.as_str()),
            None => push_str(&mut r, "unknown"),
        }
        push_str(&mut r, "\n\nErrors:\n");
        let joined = join(&errors, "\n");
        push_str(&mut r, joined.as_str());
        push_str(&mut r, "\n");
        Some(r)
    }
}

} // verus!
