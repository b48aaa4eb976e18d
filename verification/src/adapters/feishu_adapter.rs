//! Feishu (Lark) messaging: event kinds, message kinds, API payloads, and the
//! decisions the adapter makes on them.
use vstd::prelude::*;
use crate::text::{eq_str, int_text, push_int, push_str, to_lowercase, lowercase};
use crate::json::{json_str_field, str_field};

verus! {

/// Feishu event types.
#[derive(Debug, Clone)]
pub enum FeishuEventType {
    MessageReceive,
    Message,
    UserCreated,
    UserUpdated,
    CalendarCreated,
    Unknown(String),
}

/// The event type that the wire name `s` denotes.
pub open spec fn event_type_of(s: Seq<char>) -> FeishuEventType {
    if s == "im.message.receive_v1"@ {
        FeishuEventType::MessageReceive
    } else if s == "im.message"@ {
        FeishuEventType::Message
    } else if s == "contact.user.created"@ {
        FeishuEventType::UserCreated
    } else if s == "contact.user.updated"@ {
        FeishuEventType::UserUpdated
    } else if s == "calendar.event.created"@ {
        FeishuEventType::CalendarCreated
    } else {
        FeishuEventType::Unknown(arbitrary())
    }
}

/// `e` is the event type that the wire name `s` denotes; an unknown name is kept.
pub open spec fn denotes(e: FeishuEventType, s: Seq<char>) -> bool {
    match event_type_of(s) {
        FeishuEventType::Unknown(_) => e matches FeishuEventType::Unknown(t) && t@ == s,
        k => e == k,
    }
}

impl From<&str> for FeishuEventType {
    /// The event type named by `s` on the wire.
    fn from(s: &str) -> (e: FeishuEventType)
        ensures
            denotes(e, s@),
    {
        if eq_str(s, "im.message.receive_v1") {
            FeishuEventType::MessageReceive
        } else if eq_str(s, "im.message") {
            FeishuEventType::Message
        } else if eq_str(s, "contact.user.created") {
            FeishuEventType::UserCreated
        } else if eq_str(s, "contact.user.updated") {
            FeishuEventType::UserUpdated
        } else if eq_str(s, "calendar.event.created") {
            FeishuEventType::CalendarCreated
        } else {
            FeishuEventType::Unknown(s.to_owned())
        }
    }
}

/// An unknown name is kept as a fresh `String`, which no spec value can equal, so
/// the conversion is described by the `ensures` of `from` (see `denotes`) instead.
impl vstd::std_specs::convert::FromSpecImpl<&str> for FeishuEventType {
    open spec fn obeys_from_spec() -> bool {
        false
    }

    open spec fn from_spec(v: &str) -> FeishuEventType {
        event_type_of(v@)
    }
}

/// Feishu message types.
#[derive(Debug, Clone, Copy, PartialEq, Eq, Structural)]
pub enum MessageType {
    Text,
    Post,
    Image,
    File,
    Audio,
    Media,
    Sticker,
    Interactive,
    ShareChat,
    ShareUser,
}

impl Default for MessageType {
    fn default() -> (m: Self)
        ensures
            m == MessageType::Text,
    {
        MessageType::Text
    }
}

/// Feishu sender information.
#[derive(Debug, Clone)]
pub struct FeishuSender {
    pub sender_id: FeishuSenderId,
    pub sender_type: String,
    pub tenant_key: String,
}

/// Feishu sender ID.
#[derive(Debug, Clone)]
pub struct FeishuSenderId {
    pub open_id: String,
    pub union_id: Option<String>,
    pub user_id: Option<String>,
}

/// Feishu message content.
#[derive(Debug, Clone)]
pub struct FeishuMessageContent {
    pub message_id: String,
    pub create_time: String,
    pub chat_id: String,
    pub chat_type: String,
    pub message_type: MessageType,
    pub content: String,
    pub sender: FeishuSender,
}

/// Feishu event header.
#[derive(Debug, Clone)]
pub struct FeishuEventHeader {
    pub event_id: String,
    pub event_type: String,
    pub create_time: String,
    pub token: String,
    pub app_id: String,
    pub tenant_key: String,
}

/// Feishu API response wrapper.
#[derive(Debug, Clone)]
pub struct FeishuResponse<T> {
    pub code: i32,
    pub msg: String,
    pub data: Option<T>,
}

/// Why a Feishu API response carries no usable data.
#[derive(Debug, Clone)]
pub enum FeishuError {
    /// The response reported success but held no data.
    NoData,
    /// The API reported the error `code` with the message `msg`.
    Api { code: i32, msg: String },
}

impl FeishuError {
    /// The error's text, as shown to users.
    pub open spec fn text(&self) -> Seq<char> {
        match self {
            FeishuError::NoData => "No data in successful response"@,
            FeishuError::Api { code, msg } => "Feishu API error: "@ + int_text(*code as int) + " - "@
                + msg@,
        }
    }

    /// The error's text, as shown to users.
    pub fn message(&self) -> (m: String)
        ensures
            m@ == self.text(),
    {
        let mut m = String::new();
        match self {
            FeishuError::NoData => push_str(&mut m, "No data in successful response"),
            FeishuError::Api { code, msg } => {
                push_str(&mut m, "Feishu API error: ");
                push_int(&mut m, *code as i64);
                push_str(&mut m, " - ");
                push_str(&mut m, msg.as_str());
            },
        }
        m
    }
}

impl<T> FeishuResponse<T> {
    /// The API reported success (code 0).
    pub fn is_success(&self) -> (b: bool)
        ensures
            b == (self.code == 0),
    {
        self.code == 0
    }

    /// The data of a successful response; a failed one gives its code and message.
    pub fn into_result(self) -> (r: Result<T, FeishuError>)
        ensures
            self.code == 0 ==> match self.data {
                Some(d) => r == Ok::<T, FeishuError>(d),
                None => r matches Err(FeishuError::NoData),
            },
            self.code != 0 ==> (r matches Err(FeishuError::Api { code, msg }) && code == self.code
                && msg@ == self.msg@),
    {
        if self.code == 0 {
            match self.data {
                Some(d) => Ok(d),
                None => Err(FeishuError::NoData),
            }
        } else {
            Err(FeishuError::Api { code: self.code, msg: self.msg })
        }
    }
}

/// Tenant access token response.
#[derive(Debug, Clone)]
pub struct TenantAccessToken {
    pub access_token: String,
    pub token_type: String,
    pub expires_in: i64,
}

/// Send message request.
#[derive(Debug, Clone)]
pub struct SendMessageRequest {
    pub receive_id: String,
    pub msg_type: MessageType,
    pub content: String,
}

/// Send message response.
#[derive(Debug, Clone)]
pub struct SendMessageResponse {
    pub message_id: String,
}

/// Feishu configuration.
#[derive(Debug, Clone)]
pub struct FeishuConfig {
    pub app_id: String,
    pub app_secret: String,
    pub bot_name: Option<String>,
    pub webhook_url: Option<String>,
    pub enable_group_notifications: bool,
    pub notification_chat_id: Option<String>,
}

impl Default for FeishuConfig {
    fn default() -> (c: Self)
        ensures
            c.app_id@ == Seq::<char>::empty(),
            c.app_secret@ == Seq::<char>::empty(),
            c.bot_name is None,
            c.webhook_url is None,
            !c.enable_group_notifications,
            c.notification_chat_id is None,
    {
        FeishuConfig {
            app_id: String::new(),
            app_secret: String::new(),
            bot_name: None,
            webhook_url: None,
            enable_group_notifications: false,
            notification_chat_id: None,
        }
    }
}

/// A cached token that expires at `expiry` (seconds) is still used at `now` when
/// more than five minutes remain.
pub fn token_is_fresh(now: i64, expiry: i64) -> (b: bool)
    ensures
        b == (now < expiry - 300),
{
    (now as i128) < (expiry as i128) - 300
}

/// Group notifications are on when the setting reads `true` in any letter case.
pub fn group_notifications_enabled(setting: &str) -> (b: bool)
    ensures
        b == (lowercase(setting@) == "true"@),
{
    let l = to_lowercase(setting);
    reads_true(l.as_str())
}

/// Whether an already lowercased setting reads `true`.
pub fn reads_true(lowered: &str) -> (b: bool)
    ensures
        b == (lowered@ == "true"@),
{
    eq_str(lowered, "true")
}

/// The accent color of a notification card at `level`: red for errors, orange for
/// warnings, green otherwise.
pub fn notification_color(level: &str) -> (c: &'static str)
    ensures
        (level@ == "error"@ || level@ == "critical"@) ==> c@ == "#FF3B30"@,
        !(level@ == "error"@ || level@ == "critical"@) && (level@ == "warning"@ || level@
            == "warn"@) ==> c@ == "#FF9500"@,
        !(level@ == "error"@ || level@ == "critical"@ || level@ == "warning"@ || level@
            == "warn"@) ==> c@ == "#34C759"@,
{
    if eq_str(level, "error") || eq_str(level, "critical") {
        "#FF3B30"
    } else if eq_str(level, "warning") || eq_str(level, "warn") {
        "#FF9500"
    } else {
        "#34C759"
    }
}

/// The text of a message of type `kind` with JSON `content`: only a text message
/// has one, the string under its `text` key (see `json_str_field`).
pub fn extract_text(kind: MessageType, content: &str) -> (r: Option<String>)
    ensures
        kind != MessageType::Text ==> r is None,
        kind == MessageType::Text ==> match r {
            Some(t) => json_str_field(content@, "text"@) == Some(t@),
            None => json_str_field(content@, "text"@) is None,
        },
{
    if kind != MessageType::Text {
        return None;
    }
    str_field(content, "text")
}

} // verus!
