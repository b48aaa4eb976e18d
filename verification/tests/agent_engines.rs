use omega_agi::agent::engines::context_window;
use omega_agi::agent::engines::{select_engine, EngineChoice, MockEngine};
use omega_agi::agent::inference::{count_tokens, Message};

#[test]
fn test_mock_token_count() {
    let engine = MockEngine::new();
    assert!(engine.count_tokens("hello world") > 0);
}

#[test]
fn test_mock_engine_with_custom_responses() {
    let mut engine =
        MockEngine::with_responses(vec!["Answer: Hello!".to_string(), "Answer: World!".to_string()]);
    let r1 = engine.reply(&vec![]);
    let r2 = engine.reply(&vec![]);
    assert_eq!(r1.content, "Answer: Hello!");
    assert_eq!(r2.content, "Answer: World!");
    let r3 = engine.reply(&vec![]);
    assert_eq!(r3.content, "Answer: Hello!");
}

#[test]
fn test_mock_engine_returns_response() {
    let mut engine = MockEngine::new();
    let resp = engine.reply(&vec![Message::user("hello")]);
    assert!(!resp.content.is_empty());
    assert_eq!(resp.model, "mock-model");
}

#[test]
fn mock_default_replies_follow_the_last_user_message() {
    let mut engine = MockEngine::new();
    let health = engine.reply(&vec![Message::user("write code"), Message::user("Check HEALTH please")]);
    assert!(health.content.starts_with("Thought: The user wants a health check."));
    let code = engine.reply(&vec![Message::user("some Code"), Message::assistant("ok")]);
    assert!(code.content.contains("Answer: I can generate code!"));
    let other = engine.reply(&vec![Message::system("be nice"), Message::user("hi there")]);
    assert_eq!(
        other.content,
        "Thought: I received: \"hi there\". Let me check system health first.\nAction: health\nAction Input: {}"
    );
    let usage = other.usage.unwrap();
    assert_eq!((usage.prompt_tokens, usage.completion_tokens, usage.total_tokens), (100, 50, 150));
    assert_eq!(other.latency_ms, 10);
}

#[test]
fn mock_engine_counts_four_bytes_per_token() {
    let engine = MockEngine::new();
    assert_eq!(engine.count_tokens("hello world"), 3);
    assert_eq!(engine.count_tokens(""), 1);
    assert_eq!(engine.name(), "mock");
    assert_eq!(engine.max_context(), 4096);
}

#[test]
fn default_token_estimate_counts_cjk() {
    assert_eq!(count_tokens("abcdefgh"), 3);
    assert_eq!(count_tokens("\u{4f60}\u{597d}"), 2);
    assert_eq!(count_tokens(""), 1);
}

#[test]
fn router_routes_by_content() {
    assert_eq!(
        select_engine(&vec![Message::user("Please implement a Rust function")]),
        EngineChoice::Code
    );
    assert_eq!(select_engine(&vec![Message::user("hello")]), EngineChoice::Fast);
    assert_eq!(select_engine(&vec![Message::user("Summarize the quarterly report")]), EngineChoice::Default);
}

#[test]
fn message_constructors_set_roles() {
    let m = Message::tool("search", "result");
    assert_eq!(m.role, "tool");
    assert_eq!(m.name.as_deref(), Some("search"));
    assert_eq!(Message::system("s").role, "system");
    assert!(Message::assistant("a").name.is_none());
}

#[test]
fn context_windows_by_model_name() {
    assert_eq!(context_window("gpt-4o"), 128000);
    assert_eq!(context_window("deepseek-chat"), 65536);
    assert_eq!(context_window("llama"), 8192);
}
