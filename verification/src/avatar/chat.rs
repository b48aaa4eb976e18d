//! Conversation history with the avatar: a bounded log whose first entry, the
//! system prompt, is kept.
use vstd::prelude::*;
use crate::clock::now_rfc3339;
use crate::text::push_str;

verus! {

/// A single chat message.
#[derive(Debug, Clone)]
pub struct ChatMessage {
    pub role: String,
    pub content: String,
    pub timestamp: String,
}

/// The role and content of a message.
pub open spec fn entry(m: ChatMessage) -> (Seq<char>, Seq<char>) {
    (m.role@, m.content@)
}

/// The roles and contents of `ms`, in order.
pub open spec fn entries(ms: Seq<ChatMessage>) -> Seq<(Seq<char>, Seq<char>)> {
    ms.map_values(|m: ChatMessage| entry(m))
}

/// `h` with `e` appended, the entry after the first dropped when it would exceed
/// `max` entries.
pub open spec fn appended(h: Seq<(Seq<char>, Seq<char>)>, e: (Seq<char>, Seq<char>), max: nat) -> Seq<
    (Seq<char>, Seq<char>),
> {
    if h.len() + 1 > max {
        h.push(e).remove(1)
    } else {
        h.push(e)
    }
}

/// The system prompt of a chat with `name`, given a prompt prefix.
pub open spec fn chat_system_prompt(name: Seq<char>, prefix: Seq<char>) -> Seq<char> {
    if prefix.len() == 0 {
        "You are "@ + name + ", an AI avatar. Respond naturally and conversationally."@
    } else {
        prefix + "\nYou are "@ + name + "."@
    }
}

/// The placeholder reply of `name` while no model is connected.
pub open spec fn placeholder_reply(name: Seq<char>) -> Seq<char> {
    "["@ + name
        + "] I'm processing your request. (LLM integration pending \u{2014} set OMEGA_API_KEY for full AI responses)"@
}

/// A copy of `m`.
fn copy_message(m: &ChatMessage) -> (c: ChatMessage)
    ensures
        c.role@ == m.role@,
        c.content@ == m.content@,
        c.timestamp@ == m.timestamp@,
{
    ChatMessage { role: m.role.clone(), content: m.content.clone(), timestamp: m.timestamp.clone() }
}

/// Manages a conversation with the avatar.
pub struct ChatEngine {
    character_name: String,
    history: Vec<ChatMessage>,
    max_history: usize,
    system_prompt: String,
}

impl ChatEngine {
    /// The conversation so far.
    pub closed spec fn log(&self) -> Seq<ChatMessage> {
        self.history@
    }

    /// The most entries the log keeps.
    pub closed spec fn capacity(&self) -> usize {
        self.max_history
    }

    /// The character's name.
    pub closed spec fn speaker(&self) -> Seq<char> {
        self.character_name@
    }

    /// The log holds between one and `capacity` entries.
    pub closed spec fn wf(&self) -> bool {
        1 <= self.history@.len() <= self.max_history
    }

    fn push_entry(&mut self, role: &str, content: &str)
        requires
            old(self).wf(),
        ensures
            final(self).wf(),
            entries(final(self).log()) == appended(
                entries(old(self).log()),
                (role@, content@),
                old(self).capacity() as nat,
            ),
            final(self).log()[0] == old(self).log()[0],
            final(self).capacity() == old(self).capacity(),
            final(self).speaker() == old(self).speaker(),
    {
        let ghost before = self.history@;
        self.history.push(
            ChatMessage { role: role.to_owned(), content: content.to_owned(), timestamp: now_rfc3339() },
        );
        let ghost pushed = self.history@;
        if self.history.len() > self.max_history {
            self.history.remove(1);
            assert(entries(self.history@) =~= entries(pushed).remove(1));
        }
        assert(entries(pushed) =~= entries(before).push((role@, content@)));
    }

    /// A conversation with `character_name` holding only its system prompt.
    pub fn new(character_name: &str, max_history: usize, system_prefix: &str) -> (e: Self)
        requires
            max_history >= 1,
        ensures
            e.wf(),
            e.capacity() == max_history,
            e.speaker() == character_name@,
            entries(e.log()) == seq![("system"@, chat_system_prompt(character_name@, system_prefix@))],
    {
        let mut prompt = String::new();
        if system_prefix.is_empty() {
            push_str(&mut prompt, "You are ");
            push_str(&mut prompt, character_name);
            push_str(&mut prompt, ", an AI avatar. Respond naturally and conversationally.");
        } else {
            push_str(&mut prompt, system_prefix);
            push_str(&mut prompt, "\nYou are ");
            push_str(&mut prompt, character_name);
            push_str(&mut prompt, ".");
        }
        let mut history: Vec<ChatMessage> = Vec::new();
        history.push(
            ChatMessage { role: "system".to_owned(), content: prompt.clone(), timestamp: now_rfc3339() },
        );
        let e = ChatEngine {
            character_name: character_name.to_owned(),
            history,
            max_history,
            system_prompt: prompt,
        };
        assert(entries(e.history@) =~= seq![("system"@, chat_system_prompt(character_name@, system_prefix@))]);
        e
    }

    /// Adds a message; when the log is full the oldest entry after the first goes.
    pub fn add_message(&mut self, role: &str, content: &str)
        requires
            old(self).wf(),
        ensures
            final(self).wf(),
            entries(final(self).log()) == appended(
                entries(old(self).log()),
                (role@, content@),
                old(self).capacity() as nat,
            ),
            final(self).log()[0] == old(self).log()[0],
            final(self).capacity() == old(self).capacity(),
            final(self).speaker() == old(self).speaker(),
    {
        self.push_entry(role, content);
    }

    /// Answers `user_input`: logs it, then logs and returns the placeholder reply.
    pub fn respond(&mut self, user_input: &str) -> (r: String)
        requires
            old(self).wf(),
        ensures
            final(self).wf(),
            r@ == placeholder_reply(old(self).speaker()),
            entries(final(self).log()) == appended(
                appended(entries(old(self).log()), ("user"@, user_input@), old(self).capacity() as nat),
                ("assistant"@, r@),
                old(self).capacity() as nat,
            ),
            final(self).capacity() == old(self).capacity(),
            final(self).speaker() == old(self).speaker(),
    {
        self.push_entry("user", user_input);
        let mut reply = String::new();
        push_str(&mut reply, "[");
        push_str(&mut reply, self.character_name.as_str());
        push_str(
            &mut reply,
            "] I'm processing your request. (LLM integration pending \u{2014} set OMEGA_API_KEY for full AI responses)",
        );
        self.push_entry("assistant", reply.as_str());
        reply
    }

    /// A copy of the conversation.
    pub fn history(&self) -> (h: Vec<ChatMessage>)
        ensures
            entries(h@) == entries(self.log()),
    {
        let mut h: Vec<ChatMessage> = Vec::new();
        let mut i: usize = 0;
        while i < self.history.len()
            invariant
                i <= self.history.len(),
                entries(h@) == entries(self.history@.take(i as int)),
            decreases self.history.len() - i,
        {
            let ghost before = h@;
            h.push(copy_message(&self.history[i]));
            assert(entries(h@) =~= entries(before).push(entry(self.history@[i as int])));
            assert(self.history@.take(i + 1) =~= self.history@.take(i as int).push(self.history@[i as int]));
            assert(entries(h@) =~= entries(self.history@.take(i + 1)));
            i = i + 1;
        }
        assert(self.history@.take(self.history.len() as int) =~= self.history@);
        h
    }

    /// Starts over with a short system prompt for `character_name`.
    pub fn reset(&mut self, character_name: &str)
        requires
            old(self).wf(),
        ensures
            final(self).wf(),
            entries(final(self).log()) == seq![("system"@, "You are "@ + character_name@ + ". Respond naturally."@)],
            final(self).capacity() == old(self).capacity(),
            final(self).speaker() == old(self).speaker(),
    {
        let mut content = String::new();
        push_str(&mut content, "You are ");
        push_str(&mut content, character_name);
        push_str(&mut content, ". Respond naturally.");
        self.history.clear();
        self.history.push(ChatMessage { role: "system".to_owned(), content, timestamp: now_rfc3339() });
        assert(entries(self.history@) =~= seq![("system"@, "You are "@ + character_name@ + ". Respond naturally."@)]);
    }

    /// The last `n` messages (all of them when there are fewer).
    pub fn context(&self, n: usize) -> (c: Vec<ChatMessage>)
        ensures
            entries(c@) == entries(
                self.log().skip(
                    if self.log().len() > n {
                        self.log().len() - n
                    } else {
                        0
                    },
                ),
            ),
    {
        let start = if self.history.len() > n {
            self.history.len() - n
        } else {
            0
        };
        let mut c: Vec<ChatMessage> = Vec::new();
        let mut i: usize = start;
        while i < self.history.len()
            invariant
                start <= i <= self.history.len(),
                entries(c@) == entries(self.history@.subrange(start as int, i as int)),
            decreases self.history.len() - i,
        {
            let ghost before = c@;
            c.push(copy_message(&self.history[i]));
            assert(entries(c@) =~= entries(before).push(entry(self.history@[i as int])));
            assert(self.history@.subrange(start as int, i + 1) =~= self.history@.subrange(start as int, i as int).push(self.history@[i as int]));
            assert(entries(c@) =~= entries(self.history@.subrange(start as int, i + 1)));
            i = i + 1;
        }
        assert(self.history@.subrange(start as int, self.history.len() as int) =~= self.history@.skip(start as int));
        c
    }
}

} // verus!
