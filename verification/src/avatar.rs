//! The avatar: character archetypes, chat history, message display and the
//! terminal session's commands.
pub mod character;
pub mod display;
pub mod chat;
pub mod tui;

use vstd::prelude::*;
use vstd::string::StringSliceAdditionalSpecFns;
use vstd::utf8::{encode_utf8, is_char_boundary};
use crate::avatar::character::{CharacterId, Character};
use crate::avatar::chat::ChatMessage;
use crate::text::{chars_of, eq_str, push_str, slice_string};

verus! {

/// Avatar configuration.
#[derive(Debug, Clone)]
pub struct AvatarConfig {
    /// Active character.
    pub character_id: CharacterId,
    /// Terminal refresh period in milliseconds.
    pub tui_refresh_ms: u64,
    /// Show thinking/reasoning.
    pub show_thinking: bool,
    /// Most messages kept in the chat history.
    pub max_history: usize,
    /// Enable typing animation.
    pub typing_animation: bool,
    /// System prompt prefix.
    pub system_prefix: String,
}

impl Default for AvatarConfig {
    fn default() -> (c: Self)
        ensures
            c.character_id == CharacterId::Sage,
            c.tui_refresh_ms == 100,
            c.show_thinking,
            c.max_history == 100,
            c.typing_animation,
            c.system_prefix@.len() == 0,
    {
        AvatarConfig {
            character_id: CharacterId::default(),
            tui_refresh_ms: 100,
            show_thinking: true,
            max_history: 100,
            typing_animation: true,
            system_prefix: String::new(),
        }
    }
}

/// Avatar session summary.
#[derive(Debug, Clone)]
pub struct AvatarSession {
    pub character: String,
    pub message_count: usize,
    pub duration_secs: u64,
    pub emotional_trajectory: Vec<String>,
    pub last_message: Option<String>,
}

/// The first twenty characters of `c`.
pub open spec fn preview(c: Seq<char>) -> Seq<char> {
    if c.len() > 20 {
        c.take(20)
    } else {
        c
    }
}

/// Previews of the last `k` assistant messages of `h`, newest first.
pub open spec fn recent_previews(h: Seq<ChatMessage>, k: nat) -> Seq<Seq<char>>
    decreases h.len(),
{
    if h.len() == 0 || k == 0 {
        Seq::empty()
    } else if h.last().role@ == "assistant"@ {
        seq![preview(h.last().content@)] + recent_previews(h.drop_last(), (k - 1) as nat)
    } else {
        recent_previews(h.drop_last(), k)
    }
}

/// The first twenty characters of `s`.
fn preview_of(s: &str) -> (p: String)
    ensures
        p@ == preview(s@),
{
    let v = chars_of(s);
    if v.len() > 20 {
        assert(v@.take(20) =~= v@.subrange(0, 20));
        slice_string(&v, 0, 20)
    } else {
        assert(v@.subrange(0, v@.len() as int) =~= v@);
        slice_string(&v, 0, v.len())
    }
}

impl AvatarSession {
    /// The summary of a session with `character` that lasted `duration_secs` and
    /// holds `history`: its size, the previews of the last five assistant messages
    /// (newest first), and the first hundred bytes of the last message.
    pub fn summarize(character: &str, history: &Vec<ChatMessage>, duration_secs: u64) -> (s: Self)
        requires
            history@.len() > 0 && (encode_utf8(history@.last().content@).len() as usize) > 100
                ==> is_char_boundary(encode_utf8(history@.last().content@), 100),
        ensures
            s.character@ == character@,
            s.message_count == history@.len(),
            s.duration_secs == duration_secs,
            s.emotional_trajectory@.map_values(|x: String| x@) == recent_previews(history@, 5),
            history@.len() == 0 ==> s.last_message is None,
            history@.len() > 0 ==> (s.last_message matches Some(m) && {
                let c = history@.last().content;
                if (encode_utf8(c@).len() as usize) <= 100 {
                    m@ == c@
                } else {
                    encode_utf8(m@) == encode_utf8(c@).subrange(0, 100)
                }
            }),
    {
        let mut traj: Vec<String> = Vec::new();
        let mut i: usize = history.len();
        let mut k: usize = 5;
        assert(history@.take(i as int) =~= history@);
        while i > 0 && k > 0
            invariant
                i <= history.len(),
                k <= 5,
                traj@.map_values(|x: String| x@) + recent_previews(history@.take(i as int), k as nat)
                    == recent_previews(history@, 5),
            decreases i,
        {
            let m = &history[i - 1];
            let ghost h = history@.take(i as int);
            assert(h.drop_last() =~= history@.take(i - 1));
            if eq_str(m.role.as_str(), "assistant") {
                let ghost before = traj@.map_values(|x: String| x@);
                traj.push(preview_of(m.content.as_str()));
                assert(traj@.map_values(|x: String| x@) =~= before.push(preview(m.content@)));
                assert(before.push(preview(m.content@)) + recent_previews(history@.take(i - 1), (k - 1) as nat)
                    =~= before + recent_previews(h, k as nat));
                k = k - 1;
            }
            i = i - 1;
        }
        assert(recent_previews(history@.take(i as int), k as nat) =~= Seq::<Seq<char>>::empty());
        assert(traj@.map_values(|x: String| x@) + Seq::<Seq<char>>::empty() =~= traj@.map_values(|x: String| x@));
        let last_message = if history.len() == 0 {
            None
        } else {
            let c = history[history.len() - 1].content.as_str();
            if c.len() <= 100 {
                Some(c.to_owned())
            } else {
                let (head, _rest) = c.split_at(100);
                Some(head.to_owned())
            }
        };
        AvatarSession {
            character: character.to_owned(),
            message_count: history.len(),
            duration_secs,
            emotional_trajectory: traj,
            last_message,
        }
    }
}

/// The description of a character: name, title and tagline.
pub fn character_info(c: &Character) -> (s: String)
    ensures
        s@ == c.view_profile().name + " \u{2014} "@ + c.view_profile().title + "\n>>> "@
            + c.view_profile().tagline,
{
    let mut s = String::new();
    push_str(&mut s, c.name());
    push_str(&mut s, " \u{2014} ");
    push_str(&mut s, c.title());
    push_str(&mut s, "\n>>> ");
    push_str(&mut s, c.tagline());
    s
}

} // verus!
