//! Commands of the avatar's terminal session and the lines it prints.
use vstd::prelude::*;
use vstd::utf8::{encode_utf8, is_char_boundary};
use crate::avatar::character::{character_named, CharacterId};
use crate::avatar::chat::ChatMessage;
use crate::text::{
    eq_str, lowercase, push_str, starts_with, strip_prefixes, trim, trim_start_matches, trimmed,
};

verus! {

/// What one line typed in the session asks for.
#[derive(Debug, Clone)]
pub enum TuiCommand {
    /// Nothing was typed.
    Empty,
    /// End the session.
    Quit,
    /// Show the character's details.
    Info,
    /// Show the recent conversation.
    History,
    /// Switch to another character.
    Switch(CharacterId),
    /// Set the mood.
    Mood(String),
    /// Say this to the avatar.
    Say(String),
}

/// How the typed line `raw` is read, once trimmed: the commands `/quit` (or
/// `/exit`, `/q`), `/info`, `/history`, `/switch <name>` and `/mood <mood>`, or
/// else words for the avatar.
pub open spec fn command_of(raw: Seq<char>, c: TuiCommand) -> bool {
    let t = trimmed(raw);
    if t.len() == 0 {
        c matches TuiCommand::Empty
    } else if t == "/quit"@ || t == "/exit"@ || t == "/q"@ {
        c matches TuiCommand::Quit
    } else if t == "/info"@ {
        c matches TuiCommand::Info
    } else if t == "/history"@ {
        c matches TuiCommand::History
    } else if starts_with(t, "/switch "@) {
        c == TuiCommand::Switch(character_named(lowercase(trimmed(strip_prefixes(t, "/switch "@)))))
    } else if starts_with(t, "/mood "@) {
        c matches TuiCommand::Mood(m) && m@ == trimmed(strip_prefixes(t, "/mood "@))
    } else {
        c matches TuiCommand::Say(m) && m@ == t
    }
}

/// Whether `s` begins with `p`.
fn has_prefix(s: &str, p: &str) -> (b: bool)
    ensures
        b == starts_with(s@, p@),
{
    let sv = crate::text::chars_of(s);
    let pv = crate::text::chars_of(p);
    if pv.len() > sv.len() {
        return false;
    }
    let mut i: usize = 0;
    while i < pv.len()
        invariant
            pv.len() <= sv.len(),
            i <= pv.len(),
            sv@ == s@,
            pv@ == p@,
            forall|j: int| 0 <= j < i ==> sv@[j] == pv@[j],
        decreases pv.len() - i,
    {
        if sv[i] != pv[i] {
            assert(sv@.subrange(0, pv@.len() as int)[i as int] != pv@[i as int]);
            return false;
        }
        i = i + 1;
    }
    assert(sv@.subrange(0, pv@.len() as int) =~= pv@);
    true
}

/// Reads one typed line (see `command_of`).
pub fn parse_command(raw: &str) -> (c: TuiCommand)
    ensures
        command_of(raw@, c),
{
    let t = trim(raw);
    let s = t.as_str();
    if s.is_empty() {
        TuiCommand::Empty
    } else if eq_str(s, "/quit") || eq_str(s, "/exit") || eq_str(s, "/q") {
        TuiCommand::Quit
    } else if eq_str(s, "/info") {
        TuiCommand::Info
    } else if eq_str(s, "/history") {
        TuiCommand::History
    } else if has_prefix(s, "/switch ") {
        let rest = trim_start_matches(s, "/switch ");
        let name = trim(rest.as_str());
        TuiCommand::Switch(CharacterId::from_str(name.as_str()))
    } else if has_prefix(s, "/mood ") {
        let rest = trim_start_matches(s, "/mood ");
        TuiCommand::Mood(trim(rest.as_str()))
    } else {
        TuiCommand::Say(t)
    }
}

/// The line shown for a message in the session's history: the first nineteen bytes
/// of its timestamp, its role, and its content cut to 77 bytes and `...` when
/// longer than 80 bytes.
pub fn history_line(m: &ChatMessage) -> (s: String)
    requires
        (encode_utf8(m.timestamp@).len() as usize) >= 19,
        is_char_boundary(encode_utf8(m.timestamp@), 19),
        (encode_utf8(m.content@).len() as usize) > 80 ==> is_char_boundary(encode_utf8(m.content@), 77),
    ensures
        exists|ts: Seq<char>, body: Seq<char>|
            encode_utf8(ts) == encode_utf8(m.timestamp@).subrange(0, 19) && s@ == "["@ + ts + "] "@
                + m.role@ + ": "@ + body && (if (encode_utf8(m.content@).len() as usize) > 80 {
                exists|h: Seq<char>|
                    encode_utf8(h) == encode_utf8(m.content@).subrange(0, 77) && body == h + "..."@
            } else {
                body == m.content@
            }),
{
    let ts = m.timestamp.as_str();
    let (ts_head, _ts_rest) = ts.split_at(19);
    let c = m.content.as_str();
    let mut body = String::new();
    if c.len() > 80 {
        let (head, _rest) = c.split_at(77);
        push_str(&mut body, head);
        push_str(&mut body, "...");
        assert(encode_utf8(head@) == encode_utf8(m.content@).subrange(0, 77));
    } else {
        push_str(&mut body, c);
    }
    let mut s = String::new();
    push_str(&mut s, "[");
    push_str(&mut s, ts_head);
    push_str(&mut s, "] ");
    push_str(&mut s, m.role.as_str());
    push_str(&mut s, ": ");
    push_str(&mut s, body.as_str());
    assert(encode_utf8(ts_head@) == encode_utf8(m.timestamp@).subrange(0, 19));
    s
}

} // verus!
