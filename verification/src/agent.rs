//! The LLM-driven agent: chat messages, engines, tools, the Thought/Action/Answer
//! text protocol, knowledge chunking and multi-agent task routing.
pub mod inference;
pub mod llm;
pub mod engines;
pub mod tool;
pub mod tools;
pub mod react;
pub mod orchestrator;
pub mod knowledge;
pub mod feedback;

use vstd::prelude::*;
use vstd::string::StringSliceAdditionalSpecFns;
use vstd::utf8::{encode_utf8, is_char_boundary};
use crate::text::{
    chars_of, dec, find, find_spec, first_line, first_line_of, first_word, first_word_of,
    lowercase, push_dec, push_str, sub_chars, to_lowercase, trim, trim_range, trimmed,
};

verus! {

/// The final answer in a reply `text`: what follows the first `Answer:`, cut at the
/// next `\nAction:` and then at the first blank line, trimmed.
pub open spec fn answer_of(text: Seq<char>) -> Option<Seq<char>> {
    match find_spec(text, "Answer:"@) {
        None => None,
        Some(i) => {
            let after = text.skip(i + 7);
            let end = match find_spec(after, "\nAction:"@) {
                Some(e) => e,
                None => after.len() as int,
            };
            let end2 = match find_spec(after.take(end), "\n\n"@) {
                Some(e) => e,
                None => end,
            };
            Some(trimmed(after.take(end2)))
        },
    }
}

/// The tool call in a reply `text`: the lowercased first word of the line after the
/// first `Action:`, and the trimmed line after the first `Action Input:` (`{}` when
/// that line is missing); `None` when either tag or the word is missing.
pub open spec fn action_of(text: Seq<char>) -> Option<(Seq<char>, Seq<char>)> {
    match find_spec(text, "Action:"@) {
        None => None,
        Some(i) => match first_line(text.skip(i + 7)) {
            None => None,
            Some(l) => match first_word(trimmed(l)) {
                None => None,
                Some(w) => match find_spec(text, "Action Input:"@) {
                    None => None,
                    Some(j) => Some(
                        (
                            lowercase(w),
                            trimmed(
                                match first_line(text.skip(j + 13)) {
                                    Some(x) => x,
                                    None => "{}"@,
                                },
                            ),
                        ),
                    ),
                },
            },
        },
    }
}

/// The final answer in a reply (see `answer_of`).
pub fn parse_answer(text: &str) -> (r: Option<String>)
    ensures
        match r {
            Some(a) => answer_of(text@) == Some(a@),
            None => answer_of(text@) is None,
        },
{
    let cv = chars_of(text);
    let idx = match find(&cv, "Answer:") {
        Some(i) => i,
        None => return None,
    };
    proof {
        reveal_strlit("Answer:");
    }
    let n = cv.len();
    assert(idx + 7 <= n);
    let after = sub_chars(&cv, idx + 7, n);
    assert(after@ =~= cv@.skip(idx + 7));
    let end = match find(&after, "\nAction:") {
        Some(e) => e,
        None => after.len(),
    };
    let head = sub_chars(&after, 0, end);
    assert(head@ =~= after@.take(end as int));
    let end2 = match find(&head, "\n\n") {
        Some(e) => e,
        None => end,
    };
    assert(after@.take(end2 as int) =~= after@.subrange(0, end2 as int));
    Some(trim_range(&after, 0, end2))
}

/// The tool call in a reply (see `action_of`).
pub fn parse_action(text: &str) -> (r: Option<(String, String)>)
    ensures
        match r {
            Some((a, i)) => action_of(text@) == Some((a@, i@)),
            None => action_of(text@) is None,
        },
{
    let cv = chars_of(text);
    let n = cv.len();
    let action_idx = match find(&cv, "Action:") {
        Some(i) => i,
        None => return None,
    };
    proof {
        reveal_strlit("Action:");
        reveal_strlit("Action Input:");
    }
    assert(action_idx + 7 <= n);
    let after_action = sub_chars(&cv, action_idx + 7, n);
    assert(after_action@ =~= cv@.skip(action_idx + 7));
    let line = match first_line_of(&after_action) {
        Some(l) => l,
        None => return None,
    };
    let tl = trim(line.as_str());
    let word = match first_word_of(tl.as_str()) {
        Some(w) => w,
        None => return None,
    };
    let action = to_lowercase(word.as_str());
    let input_idx = match find(&cv, "Action Input:") {
        Some(i) => i,
        None => return None,
    };
    assert(input_idx + 13 <= n);
    let after_input = sub_chars(&cv, input_idx + 13, n);
    assert(after_input@ =~= cv@.skip(input_idx + 13));
    let input_line = match first_line_of(&after_input) {
        Some(l) => l,
        None => "{}".to_owned(),
    };
    let input = trim(input_line.as_str());
    Some((action, input))
}

/// `s` cut to its first `max` bytes with a note of the full length, when longer.
pub fn truncate_output(s: &str, max: usize) -> (r: String)
    requires
        s.len() > max ==> is_char_boundary(s.spec_bytes(), max as int),
    ensures
        s.len() <= max ==> r@ == s@,
        s.len() > max ==> exists|h: Seq<char>|
            encode_utf8(h) == s.spec_bytes().subrange(0, max as int) && r@ == h + "...\n[truncated, "@
                + dec(s.len() as nat) + " total chars]"@,
{
    if s.len() <= max {
        s.to_owned()
    } else {
        let (head, _rest) = s.split_at(max);
        let mut r = String::new();
        push_str(&mut r, head);
        push_str(&mut r, "...\n[truncated, ");
        push_dec(&mut r, s.len() as u64);
        push_str(&mut r, " total chars]");
        assert(encode_utf8(head@) == s.spec_bytes().subrange(0, max as int));
        r
    }
}

/// What the agent is told when a reply has neither an action nor an answer.
pub fn format_help() -> (s: &'static str)
    ensures
        s@ == "Format error: Your response must contain either:\n1. Thought: <reasoning>\n   Action: <tool_name>\n   Action Input: <JSON args>\nOR\n2. Thought: <reasoning>\n   Answer: <final answer>\n\nPlease try again with the correct format."@,
{
    "Format error: Your response must contain either:\n1. Thought: <reasoning>\n   Action: <tool_name>\n   Action Input: <JSON args>\nOR\n2. Thought: <reasoning>\n   Answer: <final answer>\n\nPlease try again with the correct format."
}

/// What the agent is told when it has used up its reasoning steps.
pub fn final_answer_request() -> (s: &'static str)
    ensures
        s@ == "You have reached the maximum number of reasoning steps. Please provide your final answer now based on what you've learned so far."@,
{
    "You have reached the maximum number of reasoning steps. Please provide your final answer now based on what you've learned so far."
}

/// The answer when the agent runs out of steps and the last reply has none.
pub fn steps_exhausted(max_steps: usize, last: &str) -> (s: String)
    ensures
        s@ == "Maximum steps reached ("@ + dec(max_steps as nat) + "). Last response:\n"@ + last@,
{
    let mut s = String::new();
    push_str(&mut s, "Maximum steps reached (");
    push_dec(&mut s, max_steps as u64);
    push_str(&mut s, "). Last response:\n");
    push_str(&mut s, last);
    s
}

/// The agent's system prompt: who it is, its role, the tools section
/// `tools_prompt`, then the rules of the reply protocol.
pub open spec fn agent_prompt_text(name: Seq<char>, tools_prompt: Seq<char>) -> Seq<char> {
    "You are **"@ + name
        + "** — an autonomous AI agent in the OMEGA AGI system.\n\nYour role: understand the user's task, reason step by step, and use the available\ntools to accomplish it. You can also use `think` as a tool for internal reasoning.\n\n"@
        + tools_prompt
        + "\nImportant rules:\n1. Always start with `Thought:` explaining your reasoning.\n2. Then use exactly one `Action:` + `Action Input:` per turn.\n3. Wait for the `Observation:` result before thinking again.\n4. When you have enough information, produce `Answer:` with the final response.\n5. If a tool fails, try an alternative approach or explain the error.\n6. Be thorough and precise.\n"@
}

/// The agent's system prompt (see `agent_prompt_text`).
pub fn agent_prompt(name: &str, tools_prompt: &str) -> (s: String)
    ensures
        s@ == agent_prompt_text(name@, tools_prompt@),
{
    let mut s = String::new();
    push_str(&mut s, "You are **");
    push_str(&mut s, name);
    push_str(
        &mut s,
        "** — an autonomous AI agent in the OMEGA AGI system.\n\nYour role: understand the user's task, reason step by step, and use the available\ntools to accomplish it. You can also use `think` as a tool for internal reasoning.\n\n",
    );
    push_str(&mut s, tools_prompt);
    push_str(
        &mut s,
        "\nImportant rules:\n1. Always start with `Thought:` explaining your reasoning.\n2. Then use exactly one `Action:` + `Action Input:` per turn.\n3. Wait for the `Observation:` result before thinking again.\n4. When you have enough information, produce `Answer:` with the final response.\n5. If a tool fails, try an alternative approach or explain the error.\n6. Be thorough and precise.\n",
    );
    s
}

} // verus!
