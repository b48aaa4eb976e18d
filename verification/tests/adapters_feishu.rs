use omega_agi::adapters::feishu_adapter::extract_text;
use omega_agi::adapters::feishu_adapter::{
    group_notifications_enabled, notification_color, token_is_fresh, FeishuConfig, FeishuError,
    FeishuEventType, FeishuResponse, MessageType,
};

#[test]
fn test_parse_event_type() {
    assert!(matches!(
        FeishuEventType::from("im.message.receive_v1"),
        FeishuEventType::MessageReceive
    ));
    assert!(matches!(
        FeishuEventType::from("calendar.event.created"),
        FeishuEventType::CalendarCreated
    ));
}

#[test]
fn test_message_type_default() {
    assert!(matches!(MessageType::default(), MessageType::Text));
}

#[test]
fn test_response_is_success() {
    let success = FeishuResponse::<()> { code: 0, msg: "success".to_string(), data: None };
    assert!(success.is_success());

    let failure = FeishuResponse::<()> { code: 99991422, msg: "error".to_string(), data: None };
    assert!(!failure.is_success());
}

#[test]
fn unknown_event_type_keeps_its_name() {
    match FeishuEventType::from("drive.file.edited") {
        FeishuEventType::Unknown(name) => assert_eq!(name, "drive.file.edited"),
        other => panic!("unexpected {:?}", other),
    }
    assert!(matches!(FeishuEventType::from("im.message"), FeishuEventType::Message));
    assert!(matches!(FeishuEventType::from("contact.user.created"), FeishuEventType::UserCreated));
    assert!(matches!(FeishuEventType::from("contact.user.updated"), FeishuEventType::UserUpdated));
}

#[test]
fn into_result_gives_data_or_error() {
    let ok = FeishuResponse { code: 0, msg: "ok".to_string(), data: Some(7u32) };
    assert_eq!(ok.into_result().ok(), Some(7));
    let empty = FeishuResponse::<u32> { code: 0, msg: "ok".to_string(), data: None };
    let e = empty.into_result().err().unwrap();
    assert!(matches!(e, FeishuError::NoData));
    assert_eq!(e.message(), "No data in successful response");
    let failed = FeishuResponse { code: -5, msg: "bad token".to_string(), data: Some(1u32) };
    let e = failed.into_result().err().unwrap();
    assert_eq!(e.message(), "Feishu API error: -5 - bad token");
}

#[test]
fn cached_token_freshness() {
    assert!(token_is_fresh(1000, 1301));
    assert!(!token_is_fresh(1000, 1300));
    assert!(!token_is_fresh(i64::MAX, i64::MIN));
}

#[test]
fn notification_colors_by_level() {
    assert_eq!(notification_color("critical"), "#FF3B30");
    assert_eq!(notification_color("warn"), "#FF9500");
    assert_eq!(notification_color("info"), "#34C759");
}

#[test]
fn group_setting_reads_true_in_any_case() {
    assert!(group_notifications_enabled("TRUE"));
    assert!(!group_notifications_enabled("yes"));
    assert!(!group_notifications_enabled(""));
}

#[test]
fn default_feishu_config_is_empty() {
    let c = FeishuConfig::default();
    assert!(c.app_id.is_empty());
    assert!(!c.enable_group_notifications);
    assert!(c.bot_name.is_none());
}

#[test]
fn extract_text_reads_text_messages_only() {
    assert_eq!(extract_text(MessageType::Text, r#"{"text":"hello"}"#), Some("hello".to_string()));
    assert_eq!(extract_text(MessageType::Text, r#"{"text":5}"#), None);
    assert_eq!(extract_text(MessageType::Text, "not json"), None);
    assert_eq!(extract_text(MessageType::Post, r#"{"text":"hello"}"#), None);
}
