//! The deterministic mock engine and the routing rule of the router engine.
use vstd::prelude::*;
use vstd::utf8::encode_utf8;
use crate::agent::inference::{ChatResponse, Message, TokenUsage};
use crate::text::{contains_str, eq_str, has_sub, lowercase, push_str, to_lowercase};

verus! {

/// The content of the last message in `ms` whose role is `user`, or the empty
/// text when there is none.
pub open spec fn last_user_content(ms: Seq<Message>) -> Seq<char>
    decreases ms.len(),
{
    if ms.len() == 0 {
        Seq::empty()
    } else if ms.last().role@ == "user"@ {
        ms.last().content@
    } else {
        last_user_content(ms.drop_last())
    }
}

/// The reply of the mock engine when it has no scripted responses, to the last
/// user message `user`.
pub open spec fn mock_default_reply(user: Seq<char>) -> Seq<char> {
    mock_reply_for(user, lowercase(user))
}

/// The mock reply to `user` whose lowercased text reads `lower`: a health-check
/// action, a code-generation answer, or an echo followed by a health check.
pub open spec fn mock_reply_for(user: Seq<char>, lower: Seq<char>) -> Seq<char> {
    if has_sub(lower, "health"@) || has_sub(lower, "\u{5065}\u{5eb7}"@) || has_sub(
        lower,
        "\u{68c0}\u{67e5}"@,
    ) {
        "Thought: The user wants a health check. I'll use the health tool.\nAction: health\nAction Input: {}"@
    } else if has_sub(lower, "code"@) || has_sub(lower, "\u{4ee3}\u{7801}"@) || has_sub(
        lower,
        "\u{751f}\u{6210}"@,
    ) {
        "Thought: The user wants code generation.\nAnswer: I can generate code! What language would you like? (Rust/Python)"@
    } else {
        "Thought: I received: \""@ + user
            + "\". Let me check system health first.\nAction: health\nAction Input: {}"@
    }
}

/// The mock engine's unscripted reply: a health-check action when the lowercased
/// message mentions health (in English or Chinese) or checking; failing that, the
/// code-generation answer when it mentions code or generating (English or
/// Chinese); otherwise an echo of the message followed by a health check.
pub proof fn lemma_mock_reply_keywords(user: Seq<char>, lower: Seq<char>)
    ensures
        ({
            let health = has_sub(lower, "health"@) || has_sub(lower, "\u{5065}\u{5eb7}"@) || has_sub(lower, "\u{68c0}\u{67e5}"@);
            let code = has_sub(lower, "code"@) || has_sub(lower, "\u{4ee3}\u{7801}"@) || has_sub(lower, "\u{751f}\u{6210}"@);
            &&& health ==> mock_reply_for(user, lower)
                == "Thought: The user wants a health check. I'll use the health tool.\nAction: health\nAction Input: {}"@
            &&& !health && code ==> mock_reply_for(user, lower)
                == "Thought: The user wants code generation.\nAnswer: I can generate code! What language would you like? (Rust/Python)"@
            &&& !health && !code ==> mock_reply_for(user, lower) == "Thought: I received: \""@ + user
                + "\". Let me check system health first.\nAction: health\nAction Input: {}"@
        }),
{
}

/// The content of the last user message in `messages` (see `last_user_content`).
pub fn last_user_message(messages: &Vec<Message>) -> (s: String)
    ensures
        s@ == last_user_content(messages@),
{
    let mut i: usize = messages.len();
    assert(messages@.take(i as int) =~= messages@);
    while i > 0
        invariant
            i <= messages.len(),
            last_user_content(messages@) == last_user_content(messages@.take(i as int)),
        decreases i,
    {
        assert(messages@.take(i as int).drop_last() =~= messages@.take(i - 1));
        if eq_str(messages[i - 1].role.as_str(), "user") {
            return messages[i - 1].content.clone();
        }
        i = i - 1;
    }
    String::new()
}

/// Deterministic mock engine: plays back scripted responses in a cycle, or answers
/// from the last user message when it has none.
pub struct MockEngine {
    pub responses: Vec<String>,
    response_index: usize,
}

impl MockEngine {
    /// How many scripted replies have been served.
    pub closed spec fn served(&self) -> usize {
        self.response_index
    }

    /// The scripted responses.
    pub closed spec fn scripted(&self) -> Seq<String> {
        self.responses@
    }

    pub fn new() -> (e: Self)
        ensures
            e.scripted().len() == 0,
            e.served() == 0,
    {
        MockEngine { responses: Vec::new(), response_index: 0 }
    }

    pub fn with_responses(responses: Vec<String>) -> (e: Self)
        ensures
            e.scripted() == responses@,
            e.served() == 0,
    {
        MockEngine { responses, response_index: 0 }
    }

    /// How many scripted replies have been served.
    pub fn serve_count(&self) -> (n: usize)
        ensures
            n == self.served(),
    {
        self.response_index
    }

    pub fn name(&self) -> (n: &'static str)
        ensures
            n@ == "mock"@,
    {
        "mock"
    }

    /// About four bytes per token.
    pub fn count_tokens(&self, text: &str) -> (n: usize)
        ensures
            n == text.len() / 4 + 1,
    {
        text.len() / 4 + 1
    }

    pub fn max_context(&self) -> (n: usize)
        ensures
            n == 4096,
    {
        4096
    }

    /// The next reply to `messages`: the scripted response at the serve count
    /// modulo their number (the count then advances), else the default reply to the
    /// last user message. The model is `mock-model` with fixed usage and latency.
    pub fn reply(&mut self, messages: &Vec<Message>) -> (r: ChatResponse)
        requires
            old(self).served() < usize::MAX,
        ensures
            final(self).scripted() == old(self).scripted(),
            old(self).scripted().len() > 0 ==> {
                &&& r.content@ == old(self).scripted()[(old(self).served() as int) % (old(self).scripted().len() as int)]@
                &&& final(self).served() == old(self).served() + 1
            },
            old(self).scripted().len() == 0 ==> {
                &&& r.content@ == mock_default_reply(last_user_content(messages@))
                &&& final(self).served() == old(self).served()
            },
            r.model@ == "mock-model"@,
            r.usage == Some(
                TokenUsage { prompt_tokens: 100, completion_tokens: 50, total_tokens: 150 },
            ),
            r.latency_ms == 10,
    {
        let content = if self.responses.len() > 0 {
            let idx = self.response_index % self.responses.len();
            let resp = self.responses[idx].clone();
            self.response_index = self.response_index + 1;
            resp
        } else {
            let user = last_user_message(messages);
            let lower = to_lowercase(user.as_str());
            mock_reply_text(user.as_str(), lower.as_str())
        };
        ChatResponse {
            content,
            model: "mock-model".to_owned(),
            usage: Some(TokenUsage { prompt_tokens: 100, completion_tokens: 50, total_tokens: 150 }),
            latency_ms: 10,
        }
    }
}

/// The mock reply to `user`, given its lowercased text `l` (see `mock_reply_for`).
pub fn mock_reply_text(user: &str, l: &str) -> (r: String)
    ensures
        r@ == mock_reply_for(user@, l@),
{
            if contains_str(l, "health") || contains_str(l, "\u{5065}\u{5eb7}") || contains_str(
                l,
                "\u{68c0}\u{67e5}",
            ) {
                "Thought: The user wants a health check. I'll use the health tool.\nAction: health\nAction Input: {}".to_owned()
            } else if contains_str(l, "code") || contains_str(l, "\u{4ee3}\u{7801}") || contains_str(
                l,
                "\u{751f}\u{6210}",
            ) {
                "Thought: The user wants code generation.\nAnswer: I can generate code! What language would you like? (Rust/Python)".to_owned()
            } else {
                let mut s = String::new();
                push_str(&mut s, "Thought: I received: \"");
                push_str(&mut s, user);
                push_str(
                    &mut s,
                    "\". Let me check system health first.\nAction: health\nAction Input: {}",
                );
                s
            }
}

impl Default for MockEngine {
    fn default() -> (e: Self)
        ensures
            e.scripted().len() == 0,
            e.served() == 0,
    {
        Self::new()
    }
}

/// Which engine the router sends a conversation to.
#[derive(Debug, Clone, Copy, PartialEq, Eq, Structural)]
pub enum EngineChoice {
    /// The code-generation engine.
    Code,
    /// The engine for short, simple requests.
    Fast,
    /// The default engine.
    Default,
}

/// The router's choice for a conversation whose contents, joined and lowercased,
/// read `lower`: code requests (generate/code/implement together with
/// function/class/rust) go to the code engine, short greetings or help requests
/// (under fifty bytes) to the fast engine, the rest to the default one.
pub open spec fn route_of(lower: Seq<char>) -> EngineChoice {
    if (has_sub(lower, "generate"@) || has_sub(lower, "code"@) || has_sub(lower, "implement"@)) && (
    has_sub(lower, "function"@) || has_sub(lower, "class"@) || has_sub(lower, "rust"@)) {
        EngineChoice::Code
    } else if (encode_utf8(lower).len() as usize) < 50 && (has_sub(lower, "hi"@) || has_sub(
        lower,
        "hello"@,
    ) || has_sub(lower, "help"@)) {
        EngineChoice::Fast
    } else {
        EngineChoice::Default
    }
}

/// The router sends a conversation to the code engine exactly when its lowercased
/// contents ask to generate, code or implement and mention a function, a class or
/// Rust; to the fast engine exactly when they do not, are under fifty bytes, and
/// greet (hi, hello) or ask for help; and to the default engine otherwise.
pub proof fn lemma_route_follows_keywords(lower: Seq<char>)
    ensures
        ({
            let asks = has_sub(lower, "generate"@) || has_sub(lower, "code"@) || has_sub(lower, "implement"@);
            let about = has_sub(lower, "function"@) || has_sub(lower, "class"@) || has_sub(lower, "rust"@);
            let short = (encode_utf8(lower).len() as usize) < 50;
            let greets = has_sub(lower, "hi"@) || has_sub(lower, "hello"@) || has_sub(lower, "help"@);
            &&& route_of(lower) == EngineChoice::Code <==> asks && about
            &&& route_of(lower) == EngineChoice::Fast <==> !(asks && about) && short && greets
            &&& route_of(lower) == EngineChoice::Default <==> !(asks && about) && !(short && greets)
        }),
{
}

/// The contents of `ms` joined without separator.
pub open spec fn joined_contents(ms: Seq<Message>) -> Seq<char>
    decreases ms.len(),
{
    if ms.len() == 0 {
        Seq::empty()
    } else {
        joined_contents(ms.drop_last()) + ms.last().content@
    }
}

/// The router's choice for `messages` (see `route_of`).
pub fn select_engine(messages: &Vec<Message>) -> (c: EngineChoice)
    ensures
        c == route_of(lowercase(joined_contents(messages@))),
{
    let mut combined = String::new();
    let mut i: usize = 0;
    while i < messages.len()
        invariant
            i <= messages.len(),
            combined@ == joined_contents(messages@.take(i as int)),
        decreases messages.len() - i,
    {
        assert(messages@.take(i + 1).drop_last() =~= messages@.take(i as int));
        push_str(&mut combined, messages[i].content.as_str());
        i = i + 1;
    }
    assert(messages@.take(messages.len() as int) =~= messages@);
    let lower = to_lowercase(combined.as_str());
    route_lowered(lower.as_str())
}

/// The router's choice for conversation contents already joined and lowercased
/// (see `route_of`).
pub fn route_lowered(l: &str) -> (c: EngineChoice)
    ensures
        c == route_of(l@),
{
    if (contains_str(l, "generate") || contains_str(l, "code") || contains_str(l, "implement")) && (
    contains_str(l, "function") || contains_str(l, "class") || contains_str(l, "rust")) {
        EngineChoice::Code
    } else if l.len() < 50 && (contains_str(l, "hi") || contains_str(l, "hello") || contains_str(
        l,
        "help",
    )) {
        EngineChoice::Fast
    } else {
        EngineChoice::Default
    }
}

/// The context window of an OpenAI-compatible model, by its name.
pub open spec fn context_window_of(model: Seq<char>) -> usize {
    if has_sub(model, "gpt-4"@) {
        128000
    } else if has_sub(model, "deepseek"@) {
        65536
    } else {
        8192
    }
}

/// A GPT-4 model has a 128000-token window, a DeepSeek one (not named GPT-4)
/// 65536, and any other model 8192.
pub proof fn lemma_context_windows(model: Seq<char>)
    ensures
        has_sub(model, "gpt-4"@) ==> context_window_of(model) == 128000,
        !has_sub(model, "gpt-4"@) && has_sub(model, "deepseek"@) ==> context_window_of(model) == 65536,
        !has_sub(model, "gpt-4"@) && !has_sub(model, "deepseek"@) ==> context_window_of(model) == 8192,
{
}

/// The context window of an OpenAI-compatible model (see `context_window_of`).
pub fn context_window(model: &str) -> (n: usize)
    ensures
        n == context_window_of(model@),
{
    if contains_str(model, "gpt-4") {
        128000
    } else if contains_str(model, "deepseek") {
        65536
    } else {
        8192
    }
}

} // verus!
