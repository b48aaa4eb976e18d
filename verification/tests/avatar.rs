use omega_agi::avatar::character::{Character, CharacterId, EmotionalState};
use omega_agi::avatar::chat::{ChatEngine, ChatMessage};
use omega_agi::avatar::display::{role_color, Colors, DisplayRenderer};
use omega_agi::avatar::tui::{history_line, parse_command, TuiCommand};
use omega_agi::avatar::{character_info, AvatarConfig, AvatarSession};

#[test]
fn character_ids_from_names() {
    assert_eq!(CharacterId::from_str("SAGE"), CharacterId::Sage);
    assert_eq!(CharacterId::from_str("tech"), CharacterId::Engineer);
    assert_eq!(CharacterId::from_str("Friend"), CharacterId::Companion);
    assert_eq!(CharacterId::from_str("creative"), CharacterId::Maverick);
    assert_eq!(CharacterId::from_str("protector"), CharacterId::Guardian);
    assert_eq!(CharacterId::from_str("pirate"), CharacterId::Default);
    assert_eq!(CharacterId::default(), CharacterId::Sage);
}

#[test]
fn characters_have_profiles() {
    let c = Character::new(CharacterId::Default);
    assert_eq!(c.id(), CharacterId::Sage);
    assert_eq!(c.name(), "Sage");
    assert_eq!(c.emotion(), EmotionalState::Contemplative);
    let mut e = Character::new(CharacterId::Engineer);
    assert_eq!(e.title(), "System Architect");
    assert_eq!(e.color(), "\x1b[32m");
    assert_eq!(e.mood(), "analytical");
    e.set_mood("focused");
    assert_eq!(e.mood(), "focused");
    assert_eq!(character_info(&e), "Engineer \u{2014} System Architect\n>>> Every system has a perfect form \u{2014} I help find it.");
}

#[test]
fn chat_history_is_bounded_and_keeps_the_system_prompt() {
    let mut chat = ChatEngine::new("Sage", 3, "");
    assert_eq!(chat.history()[0].content, "You are Sage, an AI avatar. Respond naturally and conversationally.");
    let reply = chat.respond("hi");
    assert!(reply.starts_with("[Sage] I'm processing your request."));
    chat.add_message("user", "again");
    let h = chat.history();
    assert_eq!(h.len(), 3);
    assert_eq!(h[0].role, "system");
    assert_eq!(h[1].role, "assistant");
    assert_eq!(h[2].content, "again");
    assert_eq!(chat.context(2).len(), 2);
    assert_eq!(chat.context(10).len(), 3);
    chat.reset("Guardian");
    let h = chat.history();
    assert_eq!(h.len(), 1);
    assert_eq!(h[0].content, "You are Guardian. Respond naturally.");
    let prefixed = ChatEngine::new("Sage", 5, "Be brief.");
    assert_eq!(prefixed.history()[0].content, "Be brief.\nYou are Sage.");
}

#[test]
fn display_helpers() {
    assert_eq!(role_color("user"), Colors::GREEN);
    assert_eq!(role_color("error"), Colors::RED);
    assert_eq!(role_color("other"), Colors::WHITE);
    assert_eq!(DisplayRenderer::truncate("hello world", 8), "hello...");
    assert_eq!(DisplayRenderer::truncate("hi", 8), "hi");
    let header = DisplayRenderer::header("Title");
    assert!(header.contains(&format!("\u{2551}  {:<46} \u{2551}", "Title")));
    let r = DisplayRenderer::new().render_message("assistant", "Sage", "one\ntwo");
    assert_eq!(
        r,
        "\n\x1b[36m\x1b[1m Sage\x1b[0m\n  \x1b[36m one\n  \x1b[36m two\n\x1b[0m\n"
    );
}

#[test]
fn session_commands() {
    assert!(matches!(parse_command("  /quit "), TuiCommand::Quit));
    assert!(matches!(parse_command("/q"), TuiCommand::Quit));
    assert!(matches!(parse_command(""), TuiCommand::Empty));
    assert!(matches!(parse_command("/history"), TuiCommand::History));
    assert!(matches!(parse_command("/switch  maverick"), TuiCommand::Switch(CharacterId::Maverick)));
    match parse_command("/mood  happy ") {
        TuiCommand::Mood(m) => assert_eq!(m, "happy"),
        _ => panic!("expected a mood"),
    }
    match parse_command(" hello there ") {
        TuiCommand::Say(m) => assert_eq!(m, "hello there"),
        _ => panic!("expected words"),
    }
}

#[test]
fn history_lines_are_cut() {
    let m = ChatMessage {
        role: "user".to_string(),
        content: "x".repeat(90),
        timestamp: "2024-01-02T03:04:05.678+00:00".to_string(),
    };
    let line = history_line(&m);
    assert_eq!(line, format!("[2024-01-02T03:04:05] user: {}...", "x".repeat(77)));
}

#[test]
fn session_summary() {
    let history = vec![
        ChatMessage { role: "system".to_string(), content: "s".to_string(), timestamp: String::new() },
        ChatMessage { role: "assistant".to_string(), content: "a very long assistant reply text".to_string(), timestamp: String::new() },
        ChatMessage { role: "assistant".to_string(), content: "short".to_string(), timestamp: String::new() },
    ];
    let s = AvatarSession::summarize("Sage", &history, 12);
    assert_eq!(s.message_count, 3);
    assert_eq!(s.emotional_trajectory, vec!["short".to_string(), "a very long assistan".to_string()]);
    assert_eq!(s.last_message.as_deref(), Some("short"));
    let c = AvatarConfig::default();
    assert_eq!((c.tui_refresh_ms, c.max_history), (100, 100));
    assert_eq!(c.character_id, CharacterId::Sage);
}
