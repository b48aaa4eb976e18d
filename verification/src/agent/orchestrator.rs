//! Multi-agent orchestration: tasks, the specialist agents' reply protocol, who
//! takes an unassigned sub-task, and the order in which sub-tasks run.
use vstd::prelude::*;
use std::collections::HashMap;
use vstd::multiset::Multiset;
use crate::text::{
    chars_of, contains_str, eq_str, find, find_spec, first_occurrence, lemma_find_spec, first_line, first_line_of, has_sub, join,
    join_with, lowercase, push_str, strip_prefixes, strip_suffixes, sub_chars, to_lowercase, trim,
    trim_end_matches, trim_range, trim_start_matches, trimmed,
};

verus! {

/// Where a sub-task stands.
#[derive(Debug, Clone, PartialEq, Eq)]
pub enum TaskStatus {
    Pending,
    InProgress,
    Completed(String),
    Failed(String),
}

/// A task that an agent should execute.
#[derive(Debug, Clone)]
pub struct Task {
    pub id: String,
    pub description: String,
    pub assigned_to: String,
    pub context: HashMap<String, String>,
    pub dependencies: Vec<String>,
    pub status: TaskStatus,
}

impl Task {
    /// A pending task with no context.
    pub fn pending(id: String, description: String, assigned_to: String, dependencies: Vec<String>) -> (t: Task)
        ensures
            t.id@ == id@,
            t.description@ == description@,
            t.assigned_to@ == assigned_to@,
            t.dependencies@ == dependencies@,
            t.status == TaskStatus::Pending,
    {
        Task { id, description, assigned_to, context: HashMap::new(), dependencies, status: TaskStatus::Pending }
    }
}

/// The specialist that takes a sub-task whose named agent is unknown, from its
/// lowercased description: coding, research, system or monitoring work, coding by
/// default.
pub open spec fn fallback_agent(lower: Seq<char>) -> Seq<char> {
    if has_sub(lower, "code"@) || has_sub(lower, "implement"@) || has_sub(lower, "write"@) {
        "coding-agent"@
    } else if has_sub(lower, "search"@) || has_sub(lower, "research"@) || has_sub(lower, "find"@) {
        "research-agent"@
    } else if has_sub(lower, "system"@) || has_sub(lower, "deploy"@) || has_sub(lower, "infra"@) {
        "system-agent"@
    } else if has_sub(lower, "monitor"@) || has_sub(lower, "watch"@) || has_sub(lower, "alert"@) {
        "monitoring-agent"@
    } else {
        "coding-agent"@
    }
}

/// An unknown sub-task's specialist, by the words of its lowercased description:
/// code, implement or write send it to the coding agent; failing those, search,
/// research or find to the research agent; failing those, system, deploy or infra
/// to the system agent; failing those, monitor, watch or alert to the monitoring
/// agent; and anything else to the coding agent.
pub proof fn lemma_fallback_agent_follows_keywords(lower: Seq<char>)
    ensures
        ({
            let coding = has_sub(lower, "code"@) || has_sub(lower, "implement"@) || has_sub(lower, "write"@);
            let research = has_sub(lower, "search"@) || has_sub(lower, "research"@) || has_sub(lower, "find"@);
            let system = has_sub(lower, "system"@) || has_sub(lower, "deploy"@) || has_sub(lower, "infra"@);
            let monitoring = has_sub(lower, "monitor"@) || has_sub(lower, "watch"@) || has_sub(lower, "alert"@);
            &&& coding ==> fallback_agent(lower) == "coding-agent"@
            &&& !coding && research ==> fallback_agent(lower) == "research-agent"@
            &&& !coding && !research && system ==> fallback_agent(lower) == "system-agent"@
            &&& !coding && !research && !system && monitoring ==> fallback_agent(lower) == "monitoring-agent"@
            &&& !coding && !research && !system && !monitoring ==> fallback_agent(lower) == "coding-agent"@
        }),
{
}

/// The agent a decomposed sub-task goes to: the named one when it is registered
/// (`known`), else the fallback for its description.
pub fn assign_agent(named: &str, known: bool, description: &str) -> (a: String)
    ensures
        known ==> a@ == named@,
        !known ==> a@ == fallback_agent(lowercase(description@)),
{
    if known {
        return named.to_owned();
    }
    let lower = to_lowercase(description);
    fallback_agent_for(lower.as_str())
}

/// The fallback specialist for an already lowercased description (see
/// `fallback_agent`).
pub fn fallback_agent_for(l: &str) -> (a: String)
    ensures
        a@ == fallback_agent(l@),
{
    if contains_str(l, "code") || contains_str(l, "implement") || contains_str(l, "write") {
        "coding-agent".to_owned()
    } else if contains_str(l, "search") || contains_str(l, "research") || contains_str(l, "find") {
        "research-agent".to_owned()
    } else if contains_str(l, "system") || contains_str(l, "deploy") || contains_str(l, "infra") {
        "system-agent".to_owned()
    } else if contains_str(l, "monitor") || contains_str(l, "watch") || contains_str(l, "alert") {
        "monitoring-agent".to_owned()
    } else {
        "coding-agent".to_owned()
    }
}

/// A specialist's final answer: what follows the first `Answer:` up to the first
/// blank line, trimmed.
pub open spec fn specialist_answer_of(text: Seq<char>) -> Option<Seq<char>> {
    match find_spec(text, "Answer:"@) {
        None => None,
        Some(i) => {
            let after = text.skip(i + 7);
            let end = match find_spec(after, "\n\n"@) {
                Some(e) => e,
                None => after.len() as int,
            };
            Some(trimmed(after.take(end)))
        },
    }
}

/// A specialist has answered exactly when its reply holds `Answer:`; the answer is
/// what follows the first `Answer:`, trimmed, and runs to the end of the reply when
/// no blank line follows.
pub proof fn lemma_specialist_answer_marker(text: Seq<char>, i: int)
    ensures
        specialist_answer_of(text) is Some <==> has_sub(text, "Answer:"@),
        first_occurrence(text, "Answer:"@, i) && !has_sub(text.skip(i + 7), "\n\n"@) ==> specialist_answer_of(text)
            == Some(trimmed(text.skip(i + 7))),
{
    if first_occurrence(text, "Answer:"@, i) {
        lemma_find_spec(text, "Answer:"@, i);
        let after = text.skip(i + 7);
        if !has_sub(after, "\n\n"@) {
            assert(after.take(after.len() as int) =~= after);
        }
    }
}

/// A specialist's tool call: the trimmed, lowercased line after the first
/// `Action:` and the trimmed line after the first `Action Input:` (`{}` when that
/// line is missing).
pub open spec fn specialist_action_of(text: Seq<char>) -> Option<(Seq<char>, Seq<char>)> {
    match find_spec(text, "Action:"@) {
        None => None,
        Some(i) => match first_line(text.skip(i + 7)) {
            None => None,
            Some(l) => match find_spec(text, "Action Input:"@) {
                None => None,
                Some(j) => Some(
                    (
                        lowercase(trimmed(l)),
                        trimmed(
                            match first_line(text.skip(j + 13)) {
                                Some(x) => x,
                                None => "{}"@,
                            },
                        ),
                    ),
                ),
            },
        },
    }
}

/// A specialist's final answer (see `specialist_answer_of`).
pub fn specialist_parse_answer(text: &str) -> (r: Option<String>)
    ensures
        match r {
            Some(a) => specialist_answer_of(text@) == Some(a@),
            None => specialist_answer_of(text@) is None,
        },
{
    let cv = chars_of(text);
    let idx = match find(&cv, "Answer:") {
        Some(i) => i,
        None => return None,
    };
    proof {
        reveal_strlit("Answer:");
    }
    let n = cv.len();
    assert(idx + 7 <= n);
    let after = sub_chars(&cv, idx + 7, n);
    assert(after@ =~= cv@.skip(idx + 7));
    let end = match find(&after, "\n\n") {
        Some(e) => e,
        None => after.len(),
    };
    assert(after@.take(end as int) =~= after@.subrange(0, end as int));
    Some(trim_range(&after, 0, end))
}

/// A specialist's tool call (see `specialist_action_of`).
pub fn specialist_parse_action(text: &str) -> (r: Option<(String, String)>)
    ensures
        match r {
            Some((a, i)) => specialist_action_of(text@) == Some((a@, i@)),
            None => specialist_action_of(text@) is None,
        },
{
    let cv = chars_of(text);
    let n = cv.len();
    let action_idx = match find(&cv, "Action:") {
        Some(i) => i,
        None => return None,
    };
    proof {
        reveal_strlit("Action:");
        reveal_strlit("Action Input:");
    }
    assert(action_idx + 7 <= n);
    let after_action = sub_chars(&cv, action_idx + 7, n);
    assert(after_action@ =~= cv@.skip(action_idx + 7));
    let line = match first_line_of(&after_action) {
        Some(l) => l,
        None => return None,
    };
    let tl = trim(line.as_str());
    let action = to_lowercase(tl.as_str());
    let input_idx = match find(&cv, "Action Input:") {
        Some(i) => i,
        None => return None,
    };
    assert(input_idx + 13 <= n);
    let after_input = sub_chars(&cv, input_idx + 13, n);
    assert(after_input@ =~= cv@.skip(input_idx + 13));
    let input_line = match first_line_of(&after_input) {
        Some(l) => l,
        None => "{}".to_owned(),
    };
    let input = trim(input_line.as_str());
    Some((action, input))
}

/// Whether a specialist allowed the tools `allowed` may use `action` (an empty list
/// allows every tool).
pub fn tool_permitted(allowed: &Vec<String>, action: &str) -> (b: bool)
    ensures
        b == (allowed@.len() == 0 || exists|i: int| 0 <= i < allowed@.len() && #[trigger] allowed@[i]@ == action@),
{
    if allowed.len() == 0 {
        return true;
    }
    let mut i: usize = 0;
    while i < allowed.len()
        invariant
            i <= allowed.len(),
            forall|j: int| 0 <= j < i ==> #[trigger] allowed@[j]@ != action@,
        decreases allowed.len() - i,
    {
        if eq_str(allowed[i].as_str(), action) {
            return true;
        }
        i = i + 1;
    }
    false
}

/// What a specialist is told when its reply has neither an action nor an answer.
pub fn specialist_format_retry() -> (s: &'static str)
    ensures
        s@ == "Your response was not in the correct format. Please respond with:\nThought: <reasoning>\nAction: <tool_name>\nAction Input: <JSON args>\n\nOr:\nThought: <reasoning>\nAnswer: <final answer>"@,
{
    "Your response was not in the correct format. Please respond with:\nThought: <reasoning>\nAction: <tool_name>\nAction Input: <JSON args>\n\nOr:\nThought: <reasoning>\nAnswer: <final answer>"
}

/// The message that refuses a tool to a specialist.
pub fn permission_denied(action: &str, allowed: &Vec<String>) -> (s: String)
    ensures
        s@ == "Error: You don't have permission to use '"@ + action@ + "'. Allowed: "@ + join_with(
            allowed@.map_values(|x: String| x@),
            ", "@,
        ),
{
    let mut s = String::new();
    push_str(&mut s, "Error: You don't have permission to use '");
    push_str(&mut s, action);
    push_str(&mut s, "'. Allowed: ");
    let list = join(allowed, ", ");
    push_str(&mut s, list.as_str());
    s
}

/// The ids of `ts`, in order.
pub open spec fn ids_of(ts: Seq<Task>) -> Seq<Seq<char>> {
    ts.map_values(|t: Task| t.id@)
}

/// A dependency `dep` is met once a result is recorded under that id, or a
/// completed task's description mentions it.
pub open spec fn dep_met(dep: Seq<char>, result_ids: Seq<Seq<char>>, done: Seq<Task>) -> bool {
    (exists|k: int| 0 <= k < result_ids.len() && result_ids[k] == dep) || (exists|k: int|
        0 <= k < done.len() && has_sub(#[trigger] done[k].description@, dep)
            && done[k].status is Completed)
}

/// Every dependency of `t` is met.
pub open spec fn ready(t: Task, result_ids: Seq<Seq<char>>, done: Seq<Task>) -> bool {
    forall|d: int| 0 <= d < t.dependencies@.len() ==> dep_met(#[trigger] t.dependencies@[d]@, result_ids, done)
}

/// The highest index below `c` of a ready task of `rem`.
pub open spec fn scan(rem: Seq<Task>, result_ids: Seq<Seq<char>>, done: Seq<Task>, c: int) -> Option<int>
    decreases c,
{
    if c <= 0 {
        None
    } else if ready(rem[c - 1], result_ids, done) {
        Some(c - 1)
    } else {
        scan(rem, result_ids, done, c - 1)
    }
}

/// The text recorded for a task's outcome: its output, or `Error: ` and the error.
pub open spec fn outcome_text(outcome: Result<String, String>) -> Seq<char> {
    match outcome {
        Ok(out) => out@,
        Err(e) => "Error: "@ + e@,
    }
}

/// What the scheduler does next.
#[derive(Debug, Clone, Copy, PartialEq, Eq, Structural)]
pub enum Next {
    /// Run the ready pending task at this index, with the results so far as context.
    Run(usize),
    /// No pending task is ready: run the one at this index (the last) as it is.
    Force(usize),
    /// Every task has been run.
    Done,
}

/// The order in which decomposed sub-tasks run. Passes go over the pending tasks
/// from the last to the first, running each whose dependencies are met; a pass
/// that runs nothing forces the last pending task. Every task runs exactly once.
pub struct Schedule {
    remaining: Vec<Task>,
    completed: Vec<Task>,
    results: Vec<(String, String)>,
    cursor: usize,
    progress: bool,
    planned: Ghost<Multiset<Seq<char>>>,
    in_flight: Ghost<Multiset<Seq<char>>>,
}

impl Schedule {
    /// Tasks not yet run, in order.
    pub closed spec fn pending(&self) -> Seq<Task> {
        self.remaining@
    }

    /// Tasks run, in the order they were recorded.
    pub closed spec fn done(&self) -> Seq<Task> {
        self.completed@
    }

    /// The ids under which results are recorded, each once.
    pub closed spec fn result_ids(&self) -> Seq<Seq<char>> {
        self.results@.map_values(|r: (String, String)| r.0@)
    }

    /// The recorded results, in order.
    pub closed spec fn result_texts(&self) -> Seq<Seq<char>> {
        self.results@.map_values(|r: (String, String)| r.1@)
    }

    /// The recorded results with the ids they are recorded under, in order.
    pub closed spec fn results_view(&self) -> Seq<(Seq<char>, Seq<char>)> {
        self.results@.map_values(|r: (String, String)| (r.0@, r.1@))
    }

    /// How far down the current pass has got.
    pub closed spec fn pass_cursor(&self) -> usize {
        self.cursor
    }

    /// Whether the current pass has run a task.
    pub closed spec fn pass_progress(&self) -> bool {
        self.progress
    }

    /// The ids of the tasks the schedule was made with.
    pub closed spec fn planned(&self) -> Multiset<Seq<char>> {
        self.planned@
    }

    /// The ids of the tasks taken and not yet recorded.
    pub closed spec fn in_flight(&self) -> Multiset<Seq<char>> {
        self.in_flight@
    }

    /// Every planned task is pending, running or done.
    pub closed spec fn wf(&self) -> bool {
        &&& self.cursor <= self.remaining@.len()
        &&& ids_of(self.remaining@).to_multiset().add(ids_of(self.completed@).to_multiset()).add(
            self.in_flight@,
        ) == self.planned@
        &&& self.result_ids().no_duplicates()
    }

    /// A schedule for `tasks`, none run yet.
    pub fn new(tasks: Vec<Task>) -> (s: Self)
        ensures
            s.wf(),
            s.pending() == tasks@,
            s.done().len() == 0,
            s.result_ids().len() == 0,
            s.pass_cursor() == tasks@.len(),
            !s.pass_progress(),
            s.planned() == ids_of(tasks@).to_multiset(),
            s.in_flight() == Multiset::<Seq<char>>::empty(),
    {
        let n = tasks.len();
        let s = Schedule {
            remaining: tasks,
            completed: Vec::new(),
            results: Vec::new(),
            cursor: n,
            progress: false,
            planned: Ghost(ids_of(tasks@).to_multiset()),
            in_flight: Ghost(Multiset::empty()),
        };
        proof {
            broadcast use vstd::seq_lib::group_to_multiset_ensures;
            assert(ids_of(s.completed@) =~= Seq::<Seq<char>>::empty());
            assert(ids_of(s.completed@).to_multiset() =~= Multiset::empty());
            assert(s.result_ids() =~= Seq::<Seq<char>>::empty());
            assert(ids_of(s.remaining@).to_multiset().add(ids_of(s.completed@).to_multiset()).add(
                s.in_flight@,
            ) =~= s.planned@);
        }
        s
    }

    /// The index of the result recorded under `id`, if any.
    fn result_index(&self, id: &str) -> (r: Option<usize>)
        ensures
            match r {
                Some(k) => k < self.result_ids().len() && self.result_ids()[k as int] == id@,
                None => forall|j: int| 0 <= j < self.result_ids().len() ==> self.result_ids()[j] != id@,
            },
    {
        let mut k: usize = 0;
        while k < self.results.len()
            invariant
                k <= self.results.len(),
                forall|j: int| 0 <= j < k ==> self.result_ids()[j] != id@,
            decreases self.results.len() - k,
        {
            if eq_str(self.results[k].0.as_str(), id) {
                return Some(k);
            }
            k = k + 1;
        }
        None
    }

    /// Whether a completed task's description mentions `dep`.
    fn mentioned_by_completed(&self, dep: &str) -> (b: bool)
        ensures
            b == exists|k: int|
                0 <= k < self.done().len() && has_sub(#[trigger] self.done()[k].description@, dep@)
                    && self.done()[k].status is Completed,
    {
        let mut k: usize = 0;
        while k < self.completed.len()
            invariant
                k <= self.completed.len(),
                forall|j: int| 0 <= j < k ==> !(has_sub(#[trigger] self.completed@[j].description@, dep@)
                    && self.completed@[j].status is Completed),
            decreases self.completed.len() - k,
        {
            let c = &self.completed[k];
            let is_done = match c.status {
                TaskStatus::Completed(_) => true,
                _ => false,
            };
            if is_done && contains_str(c.description.as_str(), dep) {
                return true;
            }
            k = k + 1;
        }
        false
    }

    /// Whether every dependency of `t` is met now.
    fn is_ready(&self, t: &Task) -> (b: bool)
        ensures
            b == ready(*t, self.result_ids(), self.done()),
    {
        let mut d: usize = 0;
        while d < t.dependencies.len()
            invariant
                d <= t.dependencies.len(),
                forall|e: int| 0 <= e < d ==> dep_met(#[trigger] t.dependencies@[e]@, self.result_ids(), self.done()),
            decreases t.dependencies.len() - d,
        {
            let dep = t.dependencies[d].as_str();
            let by_result = self.result_index(dep).is_some();
            if !by_result && !self.mentioned_by_completed(dep) {
                return false;
            }
            d = d + 1;
        }
        true
    }

    /// The highest index below `c` of a ready pending task (see `scan`).
    fn scan_below(&self, c: usize) -> (r: Option<usize>)
        requires
            c <= self.pending().len(),
        ensures
            match r {
                Some(i) => scan(self.pending(), self.result_ids(), self.done(), c as int) == Some(i as int),
                None => scan(self.pending(), self.result_ids(), self.done(), c as int) is None,
            },
    {
        let mut i: usize = c;
        while i > 0
            invariant
                i <= c <= self.remaining@.len(),
                scan(self.pending(), self.result_ids(), self.done(), c as int) == scan(
                    self.pending(),
                    self.result_ids(),
                    self.done(),
                    i as int,
                ),
            decreases i,
        {
            if self.is_ready(&self.remaining[i - 1]) {
                return Some(i - 1);
            }
            i = i - 1;
        }
        None
    }

    /// What to do next (see `Next`): the highest ready task below the cursor; when
    /// the pass is over, a new pass if the last one ran a task, else the last
    /// pending task is forced.
    pub fn next(&mut self) -> (n: Next)
        requires
            old(self).wf(),
        ensures
            final(self).wf(),
            final(self).pending() == old(self).pending(),
            final(self).done() == old(self).done(),
            final(self).result_ids() == old(self).result_ids(),
            final(self).result_texts() == old(self).result_texts(),
            final(self).planned() == old(self).planned(),
            final(self).in_flight() == old(self).in_flight(),
            ({
                let rem = old(self).pending();
                let ids = old(self).result_ids();
                let d = old(self).done();
                if rem.len() == 0 {
                    n == Next::Done
                } else {
                    match scan(rem, ids, d, old(self).pass_cursor() as int) {
                        Some(i) => n == Next::Run(i as usize) && final(self).pass_cursor() == old(
                            self,
                        ).pass_cursor() && final(self).pass_progress() == old(self).pass_progress(),
                        None => if old(self).pass_progress() {
                            match scan(rem, ids, d, rem.len() as int) {
                                Some(i) => n == Next::Run(i as usize) && final(self).pass_cursor()
                                    == rem.len() && !final(self).pass_progress(),
                                None => n == Next::Force((rem.len() - 1) as usize),
                            }
                        } else {
                            n == Next::Force((rem.len() - 1) as usize)
                        },
                    }
                }
            }),
    {
        if self.remaining.len() == 0 {
            return Next::Done;
        }
        match self.scan_below(self.cursor) {
            Some(i) => Next::Run(i),
            None => {
                if self.progress {
                    self.cursor = self.remaining.len();
                    self.progress = false;
                    match self.scan_below(self.cursor) {
                        Some(i) => Next::Run(i),
                        None => Next::Force(self.remaining.len() - 1),
                    }
                } else {
                    Next::Force(self.remaining.len() - 1)
                }
            },
        }
    }

    /// Takes the pending task at `i` to run it, marked in progress. A normal run
    /// continues the pass below `i`; a forced run starts a new pass.
    pub fn take(&mut self, i: usize, forced: bool) -> (t: Task)
        requires
            old(self).wf(),
            i < old(self).pending().len(),
        ensures
            final(self).wf(),
            final(self).pending() == old(self).pending().remove(i as int),
            t.id@ == old(self).pending()[i as int].id@,
            t.description@ == old(self).pending()[i as int].description@,
            t.assigned_to@ == old(self).pending()[i as int].assigned_to@,
            t.dependencies@ == old(self).pending()[i as int].dependencies@,
            t.status == TaskStatus::InProgress,
            final(self).done() == old(self).done(),
            final(self).result_ids() == old(self).result_ids(),
            final(self).result_texts() == old(self).result_texts(),
            final(self).planned() == old(self).planned(),
            final(self).in_flight() == old(self).in_flight().insert(t.id@),
            forced ==> final(self).pass_cursor() == final(self).pending().len() && !final(self).pass_progress(),
            !forced ==> final(self).pass_cursor() == i && final(self).pass_progress(),
    {
        let ghost before = self.remaining@;
        let mut t = self.remaining.remove(i);
        t.status = TaskStatus::InProgress;
        proof {
            broadcast use vstd::seq_lib::group_to_multiset_ensures;
            assert(ids_of(self.remaining@) =~= ids_of(before).remove(i as int));
            assert(ids_of(before)[i as int] == t.id@);
            self.in_flight@ = self.in_flight@.insert(t.id@);
            assert(ids_of(before).to_multiset() =~= ids_of(self.remaining@).to_multiset().insert(t.id@));
            assert(ids_of(self.remaining@).to_multiset().add(ids_of(self.completed@).to_multiset()).add(
                self.in_flight@,
            ) =~= self.planned@);
        }
        if forced {
            self.cursor = self.remaining.len();
            self.progress = false;
        } else {
            self.cursor = i;
            self.progress = true;
        }
        t
    }

    /// Records the outcome of the task `t` taken earlier: completed with its output,
    /// or failed with an error whose text is kept as `Error: <error>`; the result
    /// replaces any earlier one under the same id.
    pub fn record(&mut self, t: Task, outcome: Result<String, String>)
        requires
            old(self).wf(),
            old(self).in_flight().count(t.id@) > 0,
        ensures
            final(self).wf(),
            final(self).pending() == old(self).pending(),
            final(self).done().len() == old(self).done().len() + 1,
            final(self).done().drop_last() == old(self).done(),
            final(self).done().last().id@ == t.id@,
            final(self).done().last().description@ == t.description@,
            final(self).done().last().assigned_to@ == t.assigned_to@,
            match outcome {
                Ok(out) => final(self).done().last().status matches TaskStatus::Completed(o) && o@ == out@,
                Err(e) => final(self).done().last().status matches TaskStatus::Failed(m) && m@ == e@,
            },
            final(self).result_ids().contains(t.id@),
            final(self).results_view() == if old(self).result_ids().contains(t.id@) {
                old(self).results_view().update(
                    old(self).result_ids().index_of(t.id@),
                    (t.id@, outcome_text(outcome)),
                )
            } else {
                old(self).results_view().push((t.id@, outcome_text(outcome)))
            },
            final(self).pass_cursor() == old(self).pass_cursor(),
            final(self).pass_progress() == old(self).pass_progress(),
            final(self).planned() == old(self).planned(),
            final(self).in_flight() == old(self).in_flight().remove(t.id@),
    {
        let ghost otext = outcome_text(outcome);
        let ghost old_view = self.results_view();
        let mut t = t;
        let text = match outcome {
            Ok(out) => {
                t.status = TaskStatus::Completed(out.clone());
                out
            },
            Err(e) => {
                let mut m = String::new();
                push_str(&mut m, "Error: ");
                push_str(&mut m, e.as_str());
                t.status = TaskStatus::Failed(e);
                m
            },
        };
        let ghost old_results = self.results@;
        let found = self.result_index(t.id.as_str());
        let id = t.id.clone();
        match found {
            Some(k) => {
                self.results.set(k, (id, text));
                proof {
                    let ids = self.result_ids();
                    let olds = old_results.map_values(|r: (String, String)| r.0@);
                    assert(ids =~= olds.update(k as int, t.id@));
                    assert forall|a: int, b: int| 0 <= a < ids.len() && 0 <= b < ids.len() && a != b implies ids[a] != ids[b] by {
                        if a != k && b != k {
                            assert(ids[a] == olds[a] && ids[b] == olds[b]);
                        } else if a == k {
                            assert(ids[b] == olds[b]);
                        } else {
                            assert(ids[a] == olds[a]);
                        }
                    }
                    assert(ids[k as int] == t.id@);
                    assert(olds.contains(t.id@));
                    assert(olds.no_duplicates());
                    assert(olds[olds.index_of(t.id@)] == t.id@);
                    assert(olds.index_of(t.id@) == k);
                    assert(self.results_view() =~= old_view.update(k as int, (t.id@, otext)));
                }
            },
            None => {
                self.results.push((id, text));
                proof {
                    let ids = self.result_ids();
                    let olds = old_results.map_values(|r: (String, String)| r.0@);
                    assert(ids =~= olds.push(t.id@));
                    assert(ids[ids.len() - 1] == t.id@);
                    assert(self.results_view() =~= old_view.push((t.id@, otext)));
                }
            },
        }
        let ghost before = self.completed@;
        self.completed.push(t);
        proof {
            broadcast use vstd::seq_lib::group_to_multiset_ensures;
            assert(ids_of(self.completed@) =~= ids_of(before).push(t.id@));
            self.in_flight@ = self.in_flight@.remove(t.id@);
            assert(ids_of(self.remaining@).to_multiset().add(ids_of(self.completed@).to_multiset()).add(
                self.in_flight@,
            ) =~= self.planned@);
        }
    }

    /// The recorded results joined by `\n---\n`, the context given to the next task.
    pub fn context(&self) -> (s: String)
        ensures
            s@ == join_with(self.result_texts(), "\n---\n"@),
            s@ == join_with(self.results_view().map_values(|e: (Seq<char>, Seq<char>)| e.1), "\n---\n"@),
    {
        let mut texts: Vec<String> = Vec::new();
        let mut k: usize = 0;
        while k < self.results.len()
            invariant
                k <= self.results.len(),
                texts@.map_values(|x: String| x@) == self.result_texts().take(k as int),
            decreases self.results.len() - k,
        {
            let r = &self.results[k];
            let ghost before = texts@;
            texts.push(r.1.clone());
            assert(r.1@ == self.result_texts()[k as int]);
            assert(texts@.map_values(|x: String| x@) =~= before.map_values(|x: String| x@).push(r.1@));
            assert(self.result_texts().take(k + 1) =~= self.result_texts().take(k as int).push(r.1@));
            k = k + 1;
        }
        assert(self.result_texts().take(self.results.len() as int) =~= self.result_texts());
        assert(self.results_view().map_values(|e: (Seq<char>, Seq<char>)| e.1) =~= self.result_texts());
        join(&texts, "\n---\n")
    }

    /// The tasks run so far, in order.
    pub fn finished(&self) -> (ts: &Vec<Task>)
        ensures
            ts@ == self.done(),
    {
        &self.completed
    }

    /// The pending task at `i`.
    pub fn pending_task(&self, i: usize) -> (t: &Task)
        requires
            i < self.pending().len(),
        ensures
            *t == self.pending()[i as int],
    {
        &self.remaining[i]
    }
}

/// Once no task is pending or running, the tasks run are exactly the tasks the
/// schedule was made with: each ran once.
pub proof fn lemma_every_task_runs_once(s: &Schedule)
    requires
        s.wf(),
        s.pending().len() == 0,
        s.in_flight() == Multiset::<Seq<char>>::empty(),
    ensures
        ids_of(s.done()).to_multiset() == s.planned(),
{
    broadcast use vstd::seq_lib::group_to_multiset_ensures;

    assert(ids_of(s.pending()) =~= Seq::<Seq<char>>::empty());
    assert(ids_of(s.pending()).to_multiset() =~= Multiset::empty());
    assert(ids_of(s.pending()).to_multiset().add(ids_of(s.done()).to_multiset()).add(s.in_flight())
        =~= ids_of(s.done()).to_multiset());
}

/// A task that a pass picks to run lies below the pass cursor and has every
/// dependency met.
pub proof fn lemma_pass_picks_ready_task(rem: Seq<Task>, ids: Seq<Seq<char>>, d: Seq<Task>, c: int)
    requires
        0 <= c <= rem.len(),
    ensures
        scan(rem, ids, d, c) matches Some(i) ==> 0 <= i < c && ready(rem[i], ids, d),
    decreases c,
{
    if c > 0 && !ready(rem[c - 1], ids, d) {
        lemma_pass_picks_ready_task(rem, ids, d, c - 1);
    }
}

/// The predefined roles of agents.
#[derive(Debug, Clone, Copy, PartialEq, Eq)]
pub enum AgentRole {
    Orchestrator,
    Coding,
    Research,
    System,
    Monitor,
}

/// What an agent's identity holds for its role: its name, the role text of its
/// system prompt, the tools it may use (none listed: all tools), its model and its
/// sampling temperature in tenths.
#[derive(Debug, Clone)]
pub struct RoleProfile {
    pub name: String,
    pub role: String,
    pub allowed_tools: Vec<String>,
    pub model: String,
    pub temperature_tenths: u8,
}

/// The agent name of role `r`.
pub open spec fn role_name(r: AgentRole) -> Seq<char> {
    match r {
        AgentRole::Orchestrator => "orchestrator"@,
        AgentRole::Coding => "coding-agent"@,
        AgentRole::Research => "research-agent"@,
        AgentRole::System => "system-agent"@,
        AgentRole::Monitor => "monitor-agent"@,
    }
}

/// The role text of role `r`.
pub open spec fn role_text(r: AgentRole) -> Seq<char> {
    match r {
        AgentRole::Orchestrator => "You are the Orchestrator Agent. Your job is to:\n1. Understand the user's overall goal\n2. Break it down into sub-tasks\n3. Assign each sub-task to the appropriate specialist agent\n4. Review and merge results\n5. Ensure consistency across all work"@,
        AgentRole::Coding => "You are the Coding Agent. You write high-quality, well-tested Rust code.\n- Read existing code before modifying\n- Write thorough tests\n- Follow Rust best practices\n- Generate documentation"@,
        AgentRole::Research => "You are the Research Agent. You find information and analyze code.\n- Search through codebase\n- Analyze code patterns\n- Identify performance bottlenecks\n- Provide detailed reports"@,
        AgentRole::System => "You are the System Agent. You manage infrastructure and operations.\n- Run health checks\n- Execute system commands\n- Monitor system resources\n- Handle deployments"@,
        AgentRole::Monitor => "You are the Monitor Agent. You watch the system for anomalies.\n- Continuously check system health\n- Detect performance regressions\n- Alert on errors\n- Suggest proactive fixes"@,
    }
}

/// The tools that role `r` may use, in order.
pub open spec fn role_tools(r: AgentRole) -> Seq<Seq<char>> {
    match r {
        AgentRole::Orchestrator => seq!["assign_task"@, "review_result"@, "finalize"@],
        AgentRole::Coding => seq!["read"@, "write"@, "search"@, "bash"@, "codegen"@],
        AgentRole::Research => seq!["read"@, "search"@, "health"@, "diagnose"@],
        AgentRole::System => seq!["bash"@, "health"@, "diagnose"@, "heal"@],
        AgentRole::Monitor => seq!["health"@, "diagnose"@],
    }
}

/// The sampling temperature of role `r`, in tenths.
pub open spec fn role_temperature_tenths(r: AgentRole) -> u8 {
    match r {
        AgentRole::Orchestrator => 3,
        AgentRole::Coding => 2,
        AgentRole::Research => 4,
        AgentRole::System => 2,
        AgentRole::Monitor => 1,
    }
}

/// The texts `names`, as owned strings.
fn owned_all(names: &[&str]) -> (v: Vec<String>)
    ensures
        v@.map_values(|x: String| x@) == names@.map_values(|x: &str| x@),
{
    let mut v: Vec<String> = Vec::new();
    let mut i: usize = 0;
    while i < names.len()
        invariant
            i <= names.len(),
            v@.map_values(|x: String| x@) == names@.map_values(|x: &str| x@).take(i as int),
        decreases names.len() - i,
    {
        let ghost before = v@;
        v.push(names[i].to_owned());
        assert(v@.map_values(|x: String| x@) =~= before.map_values(|x: String| x@).push(names@[i as int]@));
        assert(names@.map_values(|x: &str| x@).take(i + 1) =~= names@.map_values(|x: &str| x@).take(i as int).push(names@[i as int]@));
        i = i + 1;
    }
    assert(names@.map_values(|x: &str| x@).take(names.len() as int) =~= names@.map_values(|x: &str| x@));
    v
}

/// The profile of role `r`: every agent runs on `gpt-4o`.
pub fn role_profile(r: AgentRole) -> (p: RoleProfile)
    ensures
        p.name@ == role_name(r),
        p.role@ == role_text(r),
        p.allowed_tools@.map_values(|x: String| x@) == role_tools(r),
        p.model@ == "gpt-4o"@,
        p.temperature_tenths == role_temperature_tenths(r),
{
    let (name, role, tools, t): (&str, &str, Vec<String>, u8) = match r {
        AgentRole::Orchestrator => {
            let tools = owned_all(&["assign_task", "review_result", "finalize"]);
            assert(tools@.map_values(|x: String| x@) =~= role_tools(r));
            ("orchestrator", "You are the Orchestrator Agent. Your job is to:\n1. Understand the user's overall goal\n2. Break it down into sub-tasks\n3. Assign each sub-task to the appropriate specialist agent\n4. Review and merge results\n5. Ensure consistency across all work", tools, 3)
        },
        AgentRole::Coding => {
            let tools = owned_all(&["read", "write", "search", "bash", "codegen"]);
            assert(tools@.map_values(|x: String| x@) =~= role_tools(r));
            ("coding-agent", "You are the Coding Agent. You write high-quality, well-tested Rust code.\n- Read existing code before modifying\n- Write thorough tests\n- Follow Rust best practices\n- Generate documentation", tools, 2)
        },
        AgentRole::Research => {
            let tools = owned_all(&["read", "search", "health", "diagnose"]);
            assert(tools@.map_values(|x: String| x@) =~= role_tools(r));
            ("research-agent", "You are the Research Agent. You find information and analyze code.\n- Search through codebase\n- Analyze code patterns\n- Identify performance bottlenecks\n- Provide detailed reports", tools, 4)
        },
        AgentRole::System => {
            let tools = owned_all(&["bash", "health", "diagnose", "heal"]);
            assert(tools@.map_values(|x: String| x@) =~= role_tools(r));
            ("system-agent", "You are the System Agent. You manage infrastructure and operations.\n- Run health checks\n- Execute system commands\n- Monitor system resources\n- Handle deployments", tools, 2)
        },
        AgentRole::Monitor => {
            let tools = owned_all(&["health", "diagnose"]);
            assert(tools@.map_values(|x: String| x@) =~= role_tools(r));
            ("monitor-agent", "You are the Monitor Agent. You watch the system for anomalies.\n- Continuously check system health\n- Detect performance regressions\n- Alert on errors\n- Suggest proactive fixes", tools, 1)
        },
    };
    RoleProfile {
        name: name.to_owned(),
        role: role.to_owned(),
        allowed_tools: tools,
        model: "gpt-4o".to_owned(),
        temperature_tenths: t,
    }
}

/// How a specialist's system prompt names the tools it may use.
pub open spec fn allowed_text(allowed: Seq<Seq<char>>) -> Seq<char> {
    if allowed.len() == 0 {
        "all tools"@
    } else {
        join_with(allowed, ", "@)
    }
}

/// The system prompt of a specialist with role text `role`, whose tool registry
/// describes itself as `tools_prompt` and which may use the tools `allowed`.
pub open spec fn specialist_prompt_text(role: Seq<char>, tools_prompt: Seq<char>, allowed: Seq<Seq<char>>) -> Seq<char> {
    role + "\n\n"@ + tools_prompt + "\n\nYou have access to these tools: "@ + allowed_text(allowed)
        + "\n\nAlways respond with:\nThought: <reasoning>\nAction: <tool>\nAction Input: <json>\nor:\nThought: <reasoning>\nAnswer: <final answer>"@
}

/// The system prompt of a specialist (see `specialist_prompt_text`).
pub fn specialist_prompt(role: &str, tools_prompt: &str, allowed: &Vec<String>) -> (s: String)
    ensures
        s@ == specialist_prompt_text(role@, tools_prompt@, allowed@.map_values(|x: String| x@)),
{
    let mut s = String::new();
    push_str(&mut s, role);
    push_str(&mut s, "\n\n");
    push_str(&mut s, tools_prompt);
    push_str(&mut s, "\n\nYou have access to these tools: ");
    if allowed.len() == 0 {
        push_str(&mut s, "all tools");
    } else {
        let list = join(allowed, ", ");
        push_str(&mut s, list.as_str());
    }
    push_str(
        &mut s,
        "\n\nAlways respond with:\nThought: <reasoning>\nAction: <tool>\nAction Input: <json>\nor:\nThought: <reasoning>\nAnswer: <final answer>",
    );
    s
}

/// The request that asks the engine to split `task` among the agents `agents`.
pub open spec fn decompose_text(agents: Seq<Seq<char>>, task: Seq<char>) -> Seq<char> {
    "Decompose the following task into 2-4 smaller, specific sub-tasks that can be executed independently by specialist agents. Available agents: "@
        + join_with(agents, ", "@) + "\n\nTask: "@ + task
        + "\n\nFor each sub-task, specify:\n1. A clear description\n2. Which agent should handle it\n3. Any dependencies on other sub-tasks\n\nFormat as a JSON array where each entry has: description, assigned_to, dependencies.\nDo NOT use markdown code blocks — output pure JSON only."@
}

/// The decomposition request (see `decompose_text`).
pub fn decompose_prompt(agents: &Vec<String>, task: &str) -> (s: String)
    ensures
        s@ == decompose_text(agents@.map_values(|x: String| x@), task@),
{
    let mut s = String::new();
    push_str(
        &mut s,
        "Decompose the following task into 2-4 smaller, specific sub-tasks that can be executed independently by specialist agents. Available agents: ",
    );
    let list = join(agents, ", ");
    push_str(&mut s, list.as_str());
    push_str(&mut s, "\n\nTask: ");
    push_str(&mut s, task);
    push_str(
        &mut s,
        "\n\nFor each sub-task, specify:\n1. A clear description\n2. Which agent should handle it\n3. Any dependencies on other sub-tasks\n\nFormat as a JSON array where each entry has: description, assigned_to, dependencies.\nDo NOT use markdown code blocks — output pure JSON only.",
    );
    s
}

/// The JSON text inside an engine reply: the reply trimmed, rid of leading code
/// fences (`json` or plain) and trailing ones, and trimmed again.
pub open spec fn json_payload_text(reply: Seq<char>) -> Seq<char> {
    trimmed(strip_suffixes(strip_prefixes(strip_prefixes(trimmed(reply), "```json"@), "```"@), "```"@))
}

/// The JSON text inside an engine reply (see `json_payload_text`).
pub fn json_payload(reply: &str) -> (r: String)
    ensures
        r@ == json_payload_text(reply@),
{
    let a = trim(reply);
    let b = trim_start_matches(a.as_str(), "```json");
    let c = trim_start_matches(b.as_str(), "```");
    let d = trim_end_matches(c.as_str(), "```");
    trim(d.as_str())
}

/// The section of the synthesis request for a finished task: its agent, its
/// description and its result or error; nothing for a task that did not finish.
pub open spec fn task_section(t: Task) -> Seq<char> {
    match t.status {
        TaskStatus::Completed(r) => "## "@ + t.assigned_to@ + " ("@ + t.description@ + ")\n"@ + r@ + "\n"@,
        TaskStatus::Failed(e) => "## "@ + t.assigned_to@ + " ("@ + t.description@ + ")\n**Failed:** "@ + e@ + "\n"@,
        _ => Seq::empty(),
    }
}

/// The request that asks the engine to merge the results of the tasks `done` into
/// one answer to `task`.
pub open spec fn synthesis_text(task: Seq<char>, done: Seq<Task>) -> Seq<char> {
    "Synthesize the following results from multiple agents into a coherent final answer.\n\nOriginal task: "@
        + task + "\n\nResults:\n"@ + join_with(done.map_values(|t: Task| task_section(t)), "\n"@)
        + "\n\nProvide a unified, well-structured answer."@
}

fn section(t: &Task) -> (s: String)
    ensures
        s@ == task_section(*t),
{
    let mut s = String::new();
    match &t.status {
        TaskStatus::Completed(r) => {
            push_str(&mut s, "## ");
            push_str(&mut s, t.assigned_to.as_str());
            push_str(&mut s, " (");
            push_str(&mut s, t.description.as_str());
            push_str(&mut s, ")\n");
            push_str(&mut s, r.as_str());
            push_str(&mut s, "\n");
        },
        TaskStatus::Failed(e) => {
            push_str(&mut s, "## ");
            push_str(&mut s, t.assigned_to.as_str());
            push_str(&mut s, " (");
            push_str(&mut s, t.description.as_str());
            push_str(&mut s, ")\n**Failed:** ");
            push_str(&mut s, e.as_str());
            push_str(&mut s, "\n");
        },
        _ => {},
    }
    s
}

/// The synthesis request (see `synthesis_text`).
pub fn synthesis_prompt(task: &str, done: &Vec<Task>) -> (s: String)
    ensures
        s@ == synthesis_text(task@, done@),
{
    let ghost secs = done@.map_values(|t: Task| task_section(t));
    let mut parts: Vec<String> = Vec::new();
    let mut i: usize = 0;
    while i < done.len()
        invariant
            i <= done.len(),
            secs == done@.map_values(|t: Task| task_section(t)),
            parts@.map_values(|x: String| x@) == secs.take(i as int),
        decreases done.len() - i,
    {
        let ghost before = parts@;
        let part = section(&done[i]);
        parts.push(part);
        assert(parts@.map_values(|x: String| x@) =~= before.map_values(|x: String| x@).push(secs[i as int]));
        assert(secs.take(i + 1) =~= secs.take(i as int).push(secs[i as int]));
        i = i + 1;
    }
    assert(secs.take(done.len() as int) =~= secs);
    let mut s = String::new();
    push_str(
        &mut s,
        "Synthesize the following results from multiple agents into a coherent final answer.\n\nOriginal task: ",
    );
    push_str(&mut s, task);
    push_str(&mut s, "\n\nResults:\n");
    let body = join(&parts, "\n");
    push_str(&mut s, body.as_str());
    push_str(&mut s, "\n\nProvide a unified, well-structured answer.");
    s
}

/// How many of the tasks `ts` completed.
pub open spec fn completed_count(ts: Seq<Task>) -> nat
    decreases ts.len(),
{
    if ts.len() == 0 {
        0
    } else {
        completed_count(ts.drop_last()) + if ts.last().status is Completed { 1nat } else { 0nat }
    }
}

/// How many of the tasks `ts` completed (see `completed_count`).
pub fn count_completed(ts: &Vec<Task>) -> (n: usize)
    ensures
        n == completed_count(ts@),
{
    let mut n: usize = 0;
    let mut i: usize = 0;
    while i < ts.len()
        invariant
            i <= ts.len(),
            n == completed_count(ts@.take(i as int)),
            n <= i,
        decreases ts.len() - i,
    {
        assert(ts@.take(i + 1).drop_last() =~= ts@.take(i as int));
        if let TaskStatus::Completed(_) = &ts[i].status {
            n = n + 1;
        }
        i = i + 1;
    }
    assert(ts@.take(ts.len() as int) =~= ts@);
    n
}

/// What a specialist is given for a sub-task: the sub-task alone when it was forced
/// to run, else the results so far as context, then the sub-task.
pub open spec fn task_input_text(context: Seq<char>, description: Seq<char>, forced: bool) -> Seq<char> {
    if forced {
        description
    } else {
        "Context from previous steps:\n"@ + context + "\n\nTask: "@ + description
    }
}

/// The input of a sub-task (see `task_input_text`).
pub fn task_input(context: &str, description: &str, forced: bool) -> (s: String)
    ensures
        s@ == task_input_text(context@, description@, forced),
{
    let mut s = String::new();
    if !forced {
        push_str(&mut s, "Context from previous steps:\n");
        push_str(&mut s, context);
        push_str(&mut s, "\n\nTask: ");
    }
    push_str(&mut s, description);
    s
}

/// A sub-task as the engine's JSON reply gives it: the strings under
/// `description` and `assigned_to`, and the entries under `dependencies` (each a
/// string or not), where the reply holds them.
#[derive(Debug, Clone)]
pub struct DecomposeEntry {
    pub description: Option<String>,
    pub assigned_to: Option<String>,
    pub dependencies: Option<Vec<Option<String>>>,
}

/// The text of an optional string.
pub open spec fn opt_chars(o: Option<String>) -> Option<Seq<char>> {
    match o {
        Some(t) => Some(t@),
        None => None,
    }
}

/// The view of a reply entry.
pub open spec fn entry_view(e: DecomposeEntry) -> (
    Option<Seq<char>>,
    Option<Seq<char>>,
    Option<Seq<Option<Seq<char>>>>,
) {
    (
        opt_chars(e.description),
        opt_chars(e.assigned_to),
        match e.dependencies {
            Some(ds) => Some(ds@.map_values(|d: Option<String>| opt_chars(d))),
            None => None,
        },
    )
}

/// Name for what `serde_json` reads from a decomposition reply: the entries of the
/// JSON array `json` (each entry's `description` and `assigned_to` strings and its
/// `dependencies` array items as strings, where present), or nothing when `json`
/// is not a JSON array.
pub uninterp spec fn json_entries_of(json: Seq<char>) -> Option<
    Seq<(Option<Seq<char>>, Option<Seq<char>>, Option<Seq<Option<Seq<char>>>>)>,
>;

/// `serde_json::from_str::<Vec<serde_json::Value>>` on `json`, each value read
/// with `Value::index`, `as_str` and `as_array`; named by `json_entries_of`.
#[verifier::external_body]
fn json_entries(json: &str) -> (r: Option<Vec<DecomposeEntry>>)
    ensures
        match r {
            Some(es) => json_entries_of(json@) == Some(es@.map_values(|e: DecomposeEntry| entry_view(e))),
            None => json_entries_of(json@) is None,
        },
{
    let values: Vec<serde_json::Value> = serde_json::from_str(json).ok()?;
    Some(values.iter().map(|t| DecomposeEntry {
        description: t["description"].as_str().map(String::from),
        assigned_to: t["assigned_to"].as_str().map(String::from),
        dependencies: t["dependencies"].as_array().map(|a| a.iter().map(|v| v.as_str().map(String::from)).collect()),
    }).collect())
}

/// The strings among `ds`, in order.
pub open spec fn strings_of(ds: Seq<Option<Seq<char>>>) -> Seq<Seq<char>>
    decreases ds.len(),
{
    if ds.len() == 0 {
        Seq::empty()
    } else {
        match ds.last() {
            Some(d) => strings_of(ds.drop_last()).push(d),
            None => strings_of(ds.drop_last()),
        }
    }
}

/// `o`'s text, or `fallback`.
pub open spec fn or_chars(o: Option<Seq<char>>, fallback: Seq<char>) -> Seq<char> {
    match o {
        Some(t) => t,
        None => fallback,
    }
}

/// The sub-task an entry stands for within `task`, with specialists `known`: its
/// description (else the task), the named specialist when known (named, else the
/// coding agent), else the one its description calls for (see `fallback_agent`),
/// and the string dependencies.
pub open spec fn subtask_of(
    e: (Option<Seq<char>>, Option<Seq<char>>, Option<Seq<Option<Seq<char>>>>),
    task: Seq<char>,
    known: Seq<Seq<char>>,
) -> (Seq<char>, Seq<char>, Seq<Seq<char>>) {
    let desc = or_chars(e.0, task);
    let named = or_chars(e.1, "coding-agent"@);
    (
        desc,
        if known.contains(named) {
            named
        } else {
            fallback_agent(lowercase(desc))
        },
        match e.2 {
            Some(ds) => strings_of(ds),
            None => Seq::empty(),
        },
    )
}

/// The view of a sub-task triple.
pub open spec fn triple_view(t: (String, String, Vec<String>)) -> (Seq<char>, Seq<char>, Seq<Seq<char>>) {
    (t.0@, t.1@, t.2@.map_values(|x: String| x@))
}

fn or_text(o: &Option<String>, fallback: &str) -> (r: String)
    ensures
        r@ == or_chars(opt_chars(*o), fallback@),
{
    match o {
        Some(t) => t.clone(),
        None => fallback.to_owned(),
    }
}

fn strings_in(ds: &Vec<Option<String>>) -> (r: Vec<String>)
    ensures
        r@.map_values(|x: String| x@) == strings_of(ds@.map_values(|d: Option<String>| opt_chars(d))),
{
    let ghost dv = ds@.map_values(|d: Option<String>| opt_chars(d));
    let mut r: Vec<String> = Vec::new();
    let mut i: usize = 0;
    while i < ds.len()
        invariant
            i <= ds.len(),
            dv == ds@.map_values(|d: Option<String>| opt_chars(d)),
            r@.map_values(|x: String| x@) == strings_of(dv.take(i as int)),
        decreases ds.len() - i,
    {
        assert(dv.take(i + 1).drop_last() =~= dv.take(i as int));
        assert(dv.take(i + 1).last() == opt_chars(ds@[i as int]));
        match &ds[i] {
            Some(d) => {
                let ghost before = r@.map_values(|x: String| x@);
                r.push(d.clone());
                assert(r@.map_values(|x: String| x@) =~= before.push(d@));
            },
            None => {},
        }
        i = i + 1;
    }
    assert(dv.take(ds.len() as int) =~= dv);
    r
}

fn is_known(known: &Vec<String>, name: &str) -> (b: bool)
    ensures
        b == known@.map_values(|x: String| x@).contains(name@),
{
    let ghost kv = known@.map_values(|x: String| x@);
    let mut i: usize = 0;
    while i < known.len()
        invariant
            i <= known.len(),
            kv == known@.map_values(|x: String| x@),
            forall|j: int| 0 <= j < i ==> kv[j] != name@,
        decreases known.len() - i,
    {
        if eq_str(known[i].as_str(), name) {
            assert(kv[i as int] == name@);
            return true;
        }
        i = i + 1;
    }
    false
}

/// The sub-tasks made of parsed entries, one per entry in order: each takes its
/// entry's description (or the task), the agent that `assign_agent` picks for its
/// named agent (or "coding-agent"), and the string dependencies it lists.
pub fn subtasks_of(entries: &Vec<DecomposeEntry>, task: &str, known: &Vec<String>) -> (r: Vec<(String, String, Vec<String>)>)
    ensures
        r@.len() == entries@.len(),
        forall|i: int|
            0 <= i < entries@.len() ==> triple_view(#[trigger] r@[i]) == subtask_of(
                entry_view(entries@[i]),
                task@,
                known@.map_values(|x: String| x@),
            ),
{
    let mut r: Vec<(String, String, Vec<String>)> = Vec::new();
    let ghost kv = known@.map_values(|x: String| x@);
    let mut i: usize = 0;
    while i < entries.len()
        invariant
            i <= entries.len(),
            r@.len() == i,
            kv == known@.map_values(|x: String| x@),
            forall|j: int| 0 <= j < i ==> triple_view(#[trigger] r@[j]) == subtask_of(entry_view(entries@[j]), task@, kv),
        decreases entries.len() - i,
    {
        let e = &entries[i];
        let desc = or_text(&e.description, task);
        let named = or_text(&e.assigned_to, "coding-agent");
        let known_name = is_known(known, named.as_str());
        let agent = assign_agent(named.as_str(), known_name, desc.as_str());
        let deps: Vec<String> = match &e.dependencies {
            Some(ds) => strings_in(ds),
            None => Vec::new(),
        };
        proof {
            if e.dependencies is None {
                assert(deps@.map_values(|x: String| x@) =~= Seq::<Seq<char>>::empty());
            }
        }
        r.push((desc, agent, deps));
        assert(triple_view(r@[i as int]) == subtask_of(entry_view(entries@[i as int]), task@, kv));
        i = i + 1;
    }
    r
}

/// The sub-tasks (description, specialist, dependencies) of `task` that the
/// engine's reply `json` lists, for the specialists `known`: when the reply is no
/// JSON array (see `json_entries_of`), the whole task for the coding agent;
/// otherwise one per entry (see `subtask_of`).
pub fn decomposition(json: &str, task: &str, known: &Vec<String>) -> (r: Vec<(String, String, Vec<String>)>)
    ensures
        json_entries_of(json@) is None ==> r@.len() == 1 && triple_view(r@[0]) == (
            task@,
            "coding-agent"@,
            Seq::<Seq<char>>::empty(),
        ),
        json_entries_of(json@) matches Some(es) ==> r@.len() == es.len() && forall|i: int|
            0 <= i < es.len() ==> triple_view(#[trigger] r@[i]) == subtask_of(
                es[i],
                task@,
                known@.map_values(|x: String| x@),
            ),
{
    match json_entries(json) {
        None => {
            let mut r: Vec<(String, String, Vec<String>)> = Vec::new();
            r.push((task.to_owned(), "coding-agent".to_owned(), Vec::new()));
            assert(triple_view(r@[0]).2 =~= Seq::<Seq<char>>::empty());
            r
        },
        Some(entries) => {
            let r = subtasks_of(&entries, task, known);
            assert forall|i: int| 0 <= i < entries@.len() implies entries@.map_values(|e: DecomposeEntry| entry_view(e))[i]
                == entry_view(entries@[i]) by {}
            r
        },
    }
}

} // verus!
