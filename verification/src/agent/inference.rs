//! Chat messages, chat responses, and the token estimate shared by all engines.
use vstd::prelude::*;
use crate::text::chars_of;
use vstd::string::StringSliceAdditionalSpecFns;

verus! {

/// A single chat message with role and content.
#[derive(Debug, Clone)]
pub struct Message {
    pub role: String,
    pub content: String,
    pub name: Option<String>,
}

impl Message {
    pub fn system(content: &str) -> (m: Self)
        ensures
            m.role@ == "system"@,
            m.content@ == content@,
            m.name is None,
    {
        Message { role: "system".to_owned(), content: content.to_owned(), name: None }
    }

    pub fn user(content: &str) -> (m: Self)
        ensures
            m.role@ == "user"@,
            m.content@ == content@,
            m.name is None,
    {
        Message { role: "user".to_owned(), content: content.to_owned(), name: None }
    }

    pub fn assistant(content: &str) -> (m: Self)
        ensures
            m.role@ == "assistant"@,
            m.content@ == content@,
            m.name is None,
    {
        Message { role: "assistant".to_owned(), content: content.to_owned(), name: None }
    }

    pub fn tool(name: &str, content: &str) -> (m: Self)
        ensures
            m.role@ == "tool"@,
            m.content@ == content@,
            m.name matches Some(n) && n@ == name@,
    {
        Message { role: "tool".to_owned(), content: content.to_owned(), name: Some(name.to_owned()) }
    }
}

/// Token counts reported with a completion.
#[derive(Debug, Clone, Copy)]
pub struct TokenUsage {
    pub prompt_tokens: u32,
    pub completion_tokens: u32,
    pub total_tokens: u32,
}

/// Unified chat completion result.
#[derive(Debug, Clone)]
pub struct ChatResponse {
    pub content: String,
    pub model: String,
    pub usage: Option<TokenUsage>,
    pub latency_ms: u64,
}

/// Number of characters of `s` above U+2E80 (CJK and later blocks).
pub open spec fn cjk_count(s: Seq<char>) -> nat
    decreases s.len(),
{
    if s.len() == 0 {
        0
    } else {
        cjk_count(s.drop_last()) + if (s.last() as u32) > 0x2E80 {
            1nat
        } else {
            0nat
        }
    }
}

/// The token estimate for a text of `bytes` UTF-8 bytes holding `cjk` CJK
/// characters: about four bytes per token for the rest and two CJK characters per
/// token, plus one.
pub open spec fn estimated_tokens(bytes: nat, cjk: nat) -> nat {
    let ascii: nat = if bytes > cjk * 3 {
        (bytes - cjk * 3) as nat
    } else {
        0
    };
    ascii / 4 + cjk / 2 + 1
}

/// The approximate token count of `text` that engines use unless they know better.
pub fn count_tokens(text: &str) -> (n: usize)
    ensures
        n == estimated_tokens(text.len() as nat, cjk_count(text@)),
{
    let cv = chars_of(text);
    let mut cjk: usize = 0;
    let mut i: usize = 0;
    while i < cv.len()
        invariant
            i <= cv.len(),
            cjk <= i,
            cjk == cjk_count(cv@.take(i as int)),
        decreases cv.len() - i,
    {
        assert(cv@.take(i + 1).drop_last() =~= cv@.take(i as int));
        if (cv[i] as u32) > 0x2E80 {
            cjk = cjk + 1;
        }
        i = i + 1;
    }
    assert(cv@.take(cv.len() as int) =~= cv@);
    let bytes = text.len();
    let c3: u128 = (cjk as u128) * 3;
    let ascii: u128 = if (bytes as u128) > c3 {
        (bytes as u128) - c3
    } else {
        0
    };
    let r: u128 = ascii / 4 + (cjk as u128) / 2 + 1;
    assert(r <= usize::MAX);
    r as usize
}

} // verus!
