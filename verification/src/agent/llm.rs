//! Messages of the OpenAI-compatible chat client, and its reply when no API key is
//! configured.
use vstd::prelude::*;
use crate::text::{contains_str, eq_str, has_sub};

verus! {

/// A single chat message (role and content).
#[derive(Debug, Clone)]
pub struct Message {
    pub role: String,
    pub content: String,
}

impl Message {
    pub fn system(content: &str) -> (m: Self)
        ensures
            m.role@ == "system"@,
            m.content@ == content@,
    {
        Message { role: "system".to_owned(), content: content.to_owned() }
    }

    pub fn user(content: &str) -> (m: Self)
        ensures
            m.role@ == "user"@,
            m.content@ == content@,
    {
        Message { role: "user".to_owned(), content: content.to_owned() }
    }

    pub fn assistant(content: &str) -> (m: Self)
        ensures
            m.role@ == "assistant"@,
            m.content@ == content@,
    {
        Message { role: "assistant".to_owned(), content: content.to_owned() }
    }
}

/// The content of the last user message of `ms`, or the empty text.
pub open spec fn last_user_text(ms: Seq<Message>) -> Seq<char>
    decreases ms.len(),
{
    if ms.len() == 0 {
        Seq::empty()
    } else if ms.last().role@ == "user"@ {
        ms.last().content@
    } else {
        last_user_text(ms.drop_last())
    }
}

/// The client's reply without an API key, chosen from the last user message `u`:
/// a health check, a diagnostic, a code-generation prompt, or a health check by
/// default.
pub open spec fn offline_reply(u: Seq<char>) -> Seq<char> {
    if has_sub(u, "\u{5065}\u{5eb7}"@) || has_sub(u, "health"@) || has_sub(u, "\u{68c0}\u{67e5}"@) {
        "Thought: The user wants a health check. I'll use the health tool.\nAction: health\nAction Input: {}\n"@
    } else if has_sub(u, "\u{8bca}\u{65ad}"@) || has_sub(u, "diagnos"@) {
        "Thought: The user wants a full system diagnostic. I'll run diagnostics.\nAction: diagnose\nAction Input: {}\n"@
    } else if has_sub(u, "\u{4ee3}\u{7801}"@) || has_sub(u, "code"@) || has_sub(u, "\u{751f}\u{6210}"@) {
        "Thought: The user wants code generation. I'll ask for details first.\nAnswer: \u{6211}\u{53ef}\u{4ee5}\u{751f}\u{6210}\u{4ee3}\u{7801}\u{ff01}\u{8bf7}\u{544a}\u{8bc9}\u{6211}\u{4f60}\u{60f3}\u{8981}\u{4ec0}\u{4e48}\u{8bed}\u{8a00}\u{7684}\u{4ee3}\u{7801}\u{ff08}Rust / Python\u{ff09}\u{ff0c}\u{4ee5}\u{53ca}\u{5177}\u{4f53}\u{529f}\u{80fd}\u{63cf}\u{8ff0}\u{3002}\n"@
    } else {
        "Thought: I'll first check the system health to understand the current state.\nAction: health\nAction Input: {}\n"@
    }
}

/// The offline reply picks its action from the user's message: a health check when
/// it mentions health (in Chinese or English) or checking; failing that, a full
/// diagnostic when it mentions diagnosis; failing that, a request for details when
/// it mentions code or generating; and a health check otherwise.
pub proof fn lemma_offline_reply_keywords(u: Seq<char>)
    ensures
        ({
            let health = has_sub(u, "\u{5065}\u{5eb7}"@) || has_sub(u, "health"@) || has_sub(u, "\u{68c0}\u{67e5}"@);
            let diagnose = has_sub(u, "\u{8bca}\u{65ad}"@) || has_sub(u, "diagnos"@);
            let code = has_sub(u, "\u{4ee3}\u{7801}"@) || has_sub(u, "code"@) || has_sub(u, "\u{751f}\u{6210}"@);
            &&& health ==> offline_reply(u)
                == "Thought: The user wants a health check. I'll use the health tool.\nAction: health\nAction Input: {}\n"@
            &&& !health && diagnose ==> offline_reply(u)
                == "Thought: The user wants a full system diagnostic. I'll run diagnostics.\nAction: diagnose\nAction Input: {}\n"@
            &&& !health && !diagnose && code ==> offline_reply(u)
                == "Thought: The user wants code generation. I'll ask for details first.\nAnswer: \u{6211}\u{53ef}\u{4ee5}\u{751f}\u{6210}\u{4ee3}\u{7801}\u{ff01}\u{8bf7}\u{544a}\u{8bc9}\u{6211}\u{4f60}\u{60f3}\u{8981}\u{4ec0}\u{4e48}\u{8bed}\u{8a00}\u{7684}\u{4ee3}\u{7801}\u{ff08}Rust / Python\u{ff09}\u{ff0c}\u{4ee5}\u{53ca}\u{5177}\u{4f53}\u{529f}\u{80fd}\u{63cf}\u{8ff0}\u{3002}\n"@
            &&& !health && !diagnose && !code ==> offline_reply(u)
                == "Thought: I'll first check the system health to understand the current state.\nAction: health\nAction Input: {}\n"@
        }),
{
}

/// The content of the last user message (see `last_user_text`).
fn last_user(messages: &Vec<Message>) -> (s: String)
    ensures
        s@ == last_user_text(messages@),
{
    let mut i: usize = messages.len();
    assert(messages@.take(i as int) =~= messages@);
    while i > 0
        invariant
            i <= messages.len(),
            last_user_text(messages@) == last_user_text(messages@.take(i as int)),
        decreases i,
    {
        assert(messages@.take(i as int).drop_last() =~= messages@.take(i - 1));
        if eq_str(messages[i - 1].role.as_str(), "user") {
            return messages[i - 1].content.clone();
        }
        i = i - 1;
    }
    String::new()
}

/// The reply of the client when no API key is configured (see `offline_reply`).
pub fn mock_response(messages: &Vec<Message>) -> (s: String)
    ensures
        s@ == offline_reply(last_user_text(messages@)),
{
    let user = last_user(messages);
    let u = user.as_str();
    if contains_str(u, "\u{5065}\u{5eb7}") || contains_str(u, "health") || contains_str(u, "\u{68c0}\u{67e5}") {
        "Thought: The user wants a health check. I'll use the health tool.\nAction: health\nAction Input: {}\n".to_owned()
    } else if contains_str(u, "\u{8bca}\u{65ad}") || contains_str(u, "diagnos") {
        "Thought: The user wants a full system diagnostic. I'll run diagnostics.\nAction: diagnose\nAction Input: {}\n".to_owned()
    } else if contains_str(u, "\u{4ee3}\u{7801}") || contains_str(u, "code") || contains_str(u, "\u{751f}\u{6210}") {
        "Thought: The user wants code generation. I'll ask for details first.\nAnswer: \u{6211}\u{53ef}\u{4ee5}\u{751f}\u{6210}\u{4ee3}\u{7801}\u{ff01}\u{8bf7}\u{544a}\u{8bc9}\u{6211}\u{4f60}\u{60f3}\u{8981}\u{4ec0}\u{4e48}\u{8bed}\u{8a00}\u{7684}\u{4ee3}\u{7801}\u{ff08}Rust / Python\u{ff09}\u{ff0c}\u{4ee5}\u{53ca}\u{5177}\u{4f53}\u{529f}\u{80fd}\u{63cf}\u{8ff0}\u{3002}\n".to_owned()
    } else {
        "Thought: I'll first check the system health to understand the current state.\nAction: health\nAction Input: {}\n".to_owned()
    }
}

} // verus!
