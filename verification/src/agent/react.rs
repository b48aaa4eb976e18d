//! The Thought/Action/Answer protocol of the ReAct loop: reading one model reply
//! and the texts fed back to the model.
use vstd::prelude::*;
use crate::json::{json_str_field, str_field};
use crate::agent::tools::{reply_format, tool_catalog, tool_descriptions_prompt, tool_lines};
use crate::text::{
    chars_of, find, find_spec, lowercase, push_dec, push_str, sub_chars, to_lowercase, trim,
    trim_range, trimmed, dec,
};

verus! {

/// The text after the first `tag` in `text`, up to the first `stop` after it (or
/// the end), trimmed; `None` when `tag` does not occur.
pub open spec fn tag_text(text: Seq<char>, tag: Seq<char>, stop: Option<Seq<char>>) -> Option<
    Seq<char>,
> {
    match find_spec(text, tag) {
        None => None,
        Some(i) => {
            let after = text.skip(i + tag.len());
            let end = match stop {
                Some(st) => match find_spec(after, st) {
                    Some(e) => e,
                    None => after.len() as int,
                },
                None => after.len() as int,
            };
            Some(trimmed(after.take(end)))
        },
    }
}

/// The text after the first `tag` in `text` (see `tag_text`).
pub fn extract_tag(text: &str, tag: &str, stop_tag: Option<&str>) -> (r: Option<String>)
    ensures
        match r {
            Some(s) => tag_text(text@, tag@, match stop_tag {
                Some(st) => Some(st@),
                None => None,
            }) == Some(s@),
            None => tag_text(text@, tag@, match stop_tag {
                Some(st) => Some(st@),
                None => None,
            }) is None,
        },
{
    let cv = chars_of(text);
    let tv = chars_of(tag);
    let idx = match find(&cv, tag) {
        Some(i) => i,
        None => return None,
    };
    let n = cv.len();
    let k = tv.len();
    assert(idx + k <= n);
    let start = idx + k;
    let after = sub_chars(&cv, start, cv.len());
    assert(after@ =~= cv@.skip(start as int));
    let end = match stop_tag {
        Some(st) => match find(&after, st) {
            Some(e) => e,
            None => after.len(),
        },
        None => after.len(),
    };
    assert(after@.take(end as int) =~= after@.subrange(0, end as int));
    Some(trim_range(&after, 0, end))
}

/// One model reply, read.
#[derive(Debug, Clone)]
pub enum LlmStep {
    /// A tool call: the lowercased tool name and the raw argument text.
    Action { name: String, args: String },
    /// The final answer.
    Answer(String),
    /// The reply follows neither form; the text explains why.
    ParseFailed(String),
}

/// How a reply `text` is read: a final answer when it has `Answer:`, else a tool
/// call when it has `Action:` (arguments from `Action Input:` up to the next
/// `Action:`, `{}` when absent), else a parse failure quoting the reply.
pub open spec fn step_of(text: Seq<char>) -> (Seq<char>, Seq<char>, Seq<char>, u8) {
    match tag_text(text, "Answer:"@, None) {
        Some(a) => (a, Seq::empty(), Seq::empty(), 0),
        None => match tag_text(text, "Action:"@, None) {
            Some(n) => (
                lowercase(trimmed(n)),
                trimmed(
                    match tag_text(text, "Action Input:"@, Some("Action:"@)) {
                        Some(a) => a,
                        None => "{}"@,
                    },
                ),
                Seq::empty(),
                1,
            ),
            None => (
                "Could not parse LLM response into Action/Answer format.\nRaw output:\n"@ + text,
                Seq::empty(),
                Seq::empty(),
                2,
            ),
        },
    }
}

/// `s` is how the reply `text` reads (see `step_of`).
pub open spec fn reads_as(s: LlmStep, text: Seq<char>) -> bool {
    let v = step_of(text);
    match s {
        LlmStep::Answer(a) => v.3 == 0 && a@ == trimmed(v.0),
        LlmStep::Action { name, args } => v.3 == 1 && name@ == v.0 && args@ == v.1,
        LlmStep::ParseFailed(m) => v.3 == 2 && m@ == v.0,
    }
}

/// Reads one model reply (see `step_of`).
pub fn parse_step(text: &str) -> (s: LlmStep)
    ensures
        reads_as(s, text@),
{
    if let Some(ans) = extract_tag(text, "Answer:", None) {
        return LlmStep::Answer(trim(ans.as_str()));
    }
    if let Some(name) = extract_tag(text, "Action:", None) {
        let args_raw = match extract_tag(text, "Action Input:", Some("Action:")) {
            Some(a) => a,
            None => "{}".to_owned(),
        };
        let t = trim(name.as_str());
        let lname = to_lowercase(t.as_str());
        let args = trim(args_raw.as_str());
        return LlmStep::Action { name: lname, args };
    }
    let mut m = String::new();
    push_str(&mut m, "Could not parse LLM response into Action/Answer format.\nRaw output:\n");
    push_str(&mut m, text);
    LlmStep::ParseFailed(m)
}

/// The observation fed back after a tool ran.
pub fn observation(success: bool, output: &str) -> (s: String)
    ensures
        s@ == (if success {
            "Observation:\n"@
        } else {
            "Observation (error):\n"@
        }) + output@,
{
    let mut s = String::new();
    if success {
        push_str(&mut s, "Observation:\n");
    } else {
        push_str(&mut s, "Observation (error):\n");
    }
    push_str(&mut s, output);
    s
}

/// The observation fed back for an internal thought.
pub fn thought_observation(thought: &str) -> (s: String)
    ensures
        s@ == "Observation (internal thought): "@ + thought@,
{
    let mut s = String::new();
    push_str(&mut s, "Observation (internal thought): ");
    push_str(&mut s, thought);
    s
}

/// The thought an internal reasoning step carries: the string under `thought` in
/// its JSON arguments (see `json_str_field`), or `...` when there is none.
pub fn thought_in(args: &str) -> (t: String)
    ensures
        t@ == match json_str_field(args@, "thought"@) {
            Some(x) => x,
            None => "..."@,
        },
{
    match str_field(args, "thought") {
        Some(t) => t,
        None => "...".to_owned(),
    }
}

/// What the loop tells the model when a reply does not parse.
pub fn format_retry() -> (s: &'static str)
    ensures
        s@ == "Your response was not in the correct format. Please respond with:\nThought: <reasoning>\nAction: <tool_name>\nAction Input: <JSON args>\n\nOr if you have the final answer:\nThought: <reasoning>\nAnswer: <final answer>"@,
{
    "Your response was not in the correct format. Please respond with:\nThought: <reasoning>\nAction: <tool_name>\nAction Input: <JSON args>\n\nOr if you have the final answer:\nThought: <reasoning>\nAnswer: <final answer>"
}

/// A tool name that the loop handles as internal reasoning.
pub fn is_internal_thought(name: &str) -> (b: bool)
    ensures
        b == (name@ == "think"@ || name@ == "reason"@),
{
    crate::text::eq_str(name, "think") || crate::text::eq_str(name, "reason")
}

/// The answer when the loop runs out of steps and the last reply has none.
pub fn exhausted_answer(max_steps: usize, last: &str) -> (s: String)
    ensures
        s@ == "Reached max steps ("@ + dec(max_steps as nat) + ") without a final answer. Last LLM output:\n"@
            + last@,
{
    let mut s = String::new();
    push_str(&mut s, "Reached max steps (");
    push_dec(&mut s, max_steps as u64);
    push_str(&mut s, ") without a final answer. Last LLM output:\n");
    push_str(&mut s, last);
    s
}

/// The ReAct loop's settings.
pub struct ReActEngine {
    max_steps: usize,
}

impl ReActEngine {
    /// The most model turns before the loop asks for a final answer.
    pub closed spec fn step_limit(&self) -> usize {
        self.max_steps
    }

    pub fn new(max_steps: usize) -> (e: Self)
        ensures
            e.step_limit() == max_steps,
    {
        ReActEngine { max_steps }
    }

    pub fn max_steps(&self) -> (n: usize)
        ensures
            n == self.step_limit(),
    {
        self.max_steps
    }
}

impl Default for ReActEngine {
    fn default() -> (e: Self)
        ensures
            e.step_limit() == 15,
    {
        ReActEngine { max_steps: 15 }
    }
}

/// The part of the ReAct system prompt before the tool list.
pub open spec fn react_prompt_head() -> Seq<char> {
    "You are **OMEGA AGI Agent** \u{2014} the autonomous reasoning and execution layer\nof a five-layer AGI system (HyperCore \u{2192} Runtime \u{2192} Engineering \u{2192} Evolution \u{2192} Adapters).\n\nYour role: understand the user's task, reason step by step, and use the available\ntools to accomplish it. You can also use `think` as a tool to do internal reasoning\nwithout calling any external function \u{2014} just write your reasoning as the \"output\".\n\n"@
}

/// The part of the ReAct system prompt after the tool list.
pub open spec fn react_prompt_rules() -> Seq<char> {
    "\n\nImportant rules:\n1. Always start with `Thought:` explaining your reasoning.\n2. Then use exactly one `Action:` + `Action Input:` per turn.\n3. Wait for the `Observation:` result before thinking again.\n4. When you have enough information, produce `Answer:` with the final response.\n5. If a tool fails, try an alternative approach or explain the error.\n6. Be thorough \u{2014} check system health first if the task is unclear.\n7. You operate inside the OMEGA AGI project at C:\\Users\\Fogtao\\Downloads\\omega-agi-supremacy.\n"@
}

/// The system prompt of the ReAct loop: the agent's role, the tools with the reply
/// format, and the rules.
pub fn build_system_prompt() -> (s: String)
    ensures
        s@ == react_prompt_head() + "You have access to the following tools:\n\n"@ + tool_lines(tool_catalog())
            + reply_format() + react_prompt_rules(),
{
    let mut s = String::new();
    push_str(&mut s, "You are **OMEGA AGI Agent** \u{2014} the autonomous reasoning and execution layer\nof a five-layer AGI system (HyperCore \u{2192} Runtime \u{2192} Engineering \u{2192} Evolution \u{2192} Adapters).\n\nYour role: understand the user's task, reason step by step, and use the available\ntools to accomplish it. You can also use `think` as a tool to do internal reasoning\nwithout calling any external function \u{2014} just write your reasoning as the \"output\".\n\n");
    let tools = tool_descriptions_prompt();
    push_str(&mut s, tools.as_str());
    push_str(&mut s, "\n\nImportant rules:\n1. Always start with `Thought:` explaining your reasoning.\n2. Then use exactly one `Action:` + `Action Input:` per turn.\n3. Wait for the `Observation:` result before thinking again.\n4. When you have enough information, produce `Answer:` with the final response.\n5. If a tool fails, try an alternative approach or explain the error.\n6. Be thorough \u{2014} check system health first if the task is unclear.\n7. You operate inside the OMEGA AGI project at C:\\Users\\Fogtao\\Downloads\\omega-agi-supremacy.\n");
    assert(s@ =~= react_prompt_head() + "You have access to the following tools:\n\n"@ + tool_lines(tool_catalog())
        + reply_format() + react_prompt_rules());
    s
}

} // verus!
