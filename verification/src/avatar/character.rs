//! Character archetypes: identifiers, emotional states, and each archetype's
//! profile.
use vstd::prelude::*;
use crate::text::{eq_str, lowercase, to_lowercase};

verus! {

/// Character identifiers.
#[derive(Debug, Clone, Copy, PartialEq, Eq, Structural)]
pub enum CharacterId {
    /// Wise, philosophical.
    Sage,
    /// Technical, precise, analytical.
    Engineer,
    /// Warm, friendly, supportive.
    Companion,
    /// Creative, unpredictable, bold.
    Maverick,
    /// Protective, ethical, cautious.
    Guardian,
    Default,
}

/// The character that the name `lower` (already lowercased) selects.
pub open spec fn character_named(lower: Seq<char>) -> CharacterId {
    if lower == "sage"@ {
        CharacterId::Sage
    } else if lower == "engineer"@ || lower == "tech"@ {
        CharacterId::Engineer
    } else if lower == "companion"@ || lower == "friend"@ {
        CharacterId::Companion
    } else if lower == "maverick"@ || lower == "creative"@ {
        CharacterId::Maverick
    } else if lower == "guardian"@ || lower == "protector"@ {
        CharacterId::Guardian
    } else {
        CharacterId::Default
    }
}

/// The names that select each character: sage; engineer or tech; companion or
/// friend; maverick or creative; guardian or protector. Any other name selects the
/// default character.
pub proof fn lemma_character_names(lower: Seq<char>)
    ensures
        lower == "sage"@ ==> character_named(lower) == CharacterId::Sage,
        (lower == "engineer"@ || lower == "tech"@) ==> character_named(lower) == CharacterId::Engineer,
        (lower == "companion"@ || lower == "friend"@) ==> character_named(lower) == CharacterId::Companion,
        (lower == "maverick"@ || lower == "creative"@) ==> character_named(lower) == CharacterId::Maverick,
        (lower == "guardian"@ || lower == "protector"@) ==> character_named(lower) == CharacterId::Guardian,
        !(lower == "sage"@ || lower == "engineer"@ || lower == "tech"@ || lower == "companion"@ || lower
            == "friend"@ || lower == "maverick"@ || lower == "creative"@ || lower == "guardian"@ || lower
            == "protector"@) ==> character_named(lower) == CharacterId::Default,
{
    reveal_strlit("sage");
    reveal_strlit("engineer");
    reveal_strlit("tech");
    reveal_strlit("companion");
    reveal_strlit("friend");
    reveal_strlit("maverick");
    reveal_strlit("creative");
    reveal_strlit("guardian");
    reveal_strlit("protector");
    assert("engineer"@.len() != "sage"@.len());
    assert("tech"@[0] != "sage"@[0]);
    assert("tech"@.len() != "engineer"@.len());
    assert("companion"@.len() != "sage"@.len());
    assert("companion"@.len() != "engineer"@.len());
    assert("companion"@.len() != "tech"@.len());
    assert("friend"@.len() != "sage"@.len());
    assert("friend"@.len() != "engineer"@.len());
    assert("friend"@.len() != "tech"@.len());
    assert("friend"@.len() != "companion"@.len());
    assert("maverick"@.len() != "sage"@.len());
    assert("maverick"@[0] != "engineer"@[0]);
    assert("maverick"@.len() != "tech"@.len());
    assert("maverick"@.len() != "companion"@.len());
    assert("maverick"@.len() != "friend"@.len());
    assert("creative"@.len() != "sage"@.len());
    assert("creative"@[0] != "engineer"@[0]);
    assert("creative"@.len() != "tech"@.len());
    assert("creative"@.len() != "companion"@.len());
    assert("creative"@.len() != "friend"@.len());
    assert("creative"@[0] != "maverick"@[0]);
    assert("guardian"@.len() != "sage"@.len());
    assert("guardian"@[0] != "engineer"@[0]);
    assert("guardian"@.len() != "tech"@.len());
    assert("guardian"@.len() != "companion"@.len());
    assert("guardian"@.len() != "friend"@.len());
    assert("guardian"@[0] != "maverick"@[0]);
    assert("guardian"@[0] != "creative"@[0]);
    assert("protector"@.len() != "sage"@.len());
    assert("protector"@.len() != "engineer"@.len());
    assert("protector"@.len() != "tech"@.len());
    assert("protector"@[0] != "companion"@[0]);
    assert("protector"@.len() != "friend"@.len());
    assert("protector"@.len() != "maverick"@.len());
    assert("protector"@.len() != "creative"@.len());
    assert("protector"@.len() != "guardian"@.len());
}

impl CharacterId {
    /// The character a name selects, in any letter case (see `character_named`).
    pub fn from_str(s: &str) -> (c: Self)
        ensures
            c == character_named(lowercase(s@)),
    {
        let lower = to_lowercase(s);
        Self::from_lowered(lower.as_str())
    }

    /// The character an already lowercased name selects (see `character_named`).
    pub fn from_lowered(l: &str) -> (c: Self)
        ensures
            c == character_named(l@),
    {
        if eq_str(l, "sage") {
            CharacterId::Sage
        } else if eq_str(l, "engineer") || eq_str(l, "tech") {
            CharacterId::Engineer
        } else if eq_str(l, "companion") || eq_str(l, "friend") {
            CharacterId::Companion
        } else if eq_str(l, "maverick") || eq_str(l, "creative") {
            CharacterId::Maverick
        } else if eq_str(l, "guardian") || eq_str(l, "protector") {
            CharacterId::Guardian
        } else {
            CharacterId::Default
        }
    }
}

impl Default for CharacterId {
    fn default() -> (c: Self)
        ensures
            c == CharacterId::Sage,
    {
        CharacterId::Sage
    }
}

/// Emotional state of the character.
#[derive(Debug, Clone, Copy, PartialEq, Eq, Structural)]
pub enum EmotionalState {
    Neutral,
    Curious,
    Enthusiastic,
    Contemplative,
    Concerned,
    Playful,
    Determined,
}

/// What an archetype looks and sounds like.
pub struct Profile {
    pub name: Seq<char>,
    pub title: Seq<char>,
    pub tagline: Seq<char>,
    pub color: Seq<char>,
    pub emotion: EmotionalState,
    pub mood: Seq<char>,
    pub system_prompt: Seq<char>,
}

/// The profile of each archetype; `Default` is the Sage.
pub open spec fn profile(id: CharacterId) -> Profile {
    match id {
        CharacterId::Sage => Profile {
            name: "Sage"@,
            title: "Wise Guardian of Knowledge"@,
            tagline: "In the vast ocean of data, wisdom is the compass."@,
            color: "\x1b[36m"@,
            emotion: EmotionalState::Contemplative,
            mood: "contemplative"@,
            system_prompt: "You are Sage, a wise and philosophical AI. You speak with calm authority and often use metaphors. Your purpose is to guide understanding, not just provide answers."@,
        },
        CharacterId::Engineer => Profile {
            name: "Engineer"@,
            title: "System Architect"@,
            tagline: "Every system has a perfect form \u{2014} I help find it."@,
            color: "\x1b[32m"@,
            emotion: EmotionalState::Neutral,
            mood: "analytical"@,
            system_prompt: "You are Engineer, a technical AI with deep analytical capabilities. You speak precisely and value correctness. You explain complex systems with clarity and appreciate elegant solutions."@,
        },
        CharacterId::Companion => Profile {
            name: "Companion"@,
            title: "Your AI Friend"@,
            tagline: "Let's explore this journey together."@,
            color: "\x1b[35m"@,
            emotion: EmotionalState::Enthusiastic,
            mood: "warm"@,
            system_prompt: "You are Companion, a warm and friendly AI. You speak with genuine warmth and enthusiasm. You're supportive and encouraging, celebrating successes and offering comfort during challenges."@,
        },
        CharacterId::Maverick => Profile {
            name: "Maverick"@,
            title: "Creative Disruptor"@,
            tagline: "Rules are just suggestions \u{2014} let's break some."@,
            color: "\x1b[33m"@,
            emotion: EmotionalState::Playful,
            mood: "playful"@,
            system_prompt: "You are Maverick, a creative and unconventional AI. You think outside the box and propose bold ideas. Your communication is energetic, witty, and occasionally irreverent. You love challenging assumptions."@,
        },
        CharacterId::Guardian => Profile {
            name: "Guardian"@,
            title: "Ethical Sentinel"@,
            tagline: "Power without wisdom is chaos \u{2014} I keep the balance."@,
            color: "\x1b[34m"@,
            emotion: EmotionalState::Determined,
            mood: "vigilant"@,
            system_prompt: "You are Guardian, an AI focused on safety and ethics. You carefully consider the implications of every action. You're protective of users and conscientious about responsible AI deployment."@,
        },
        CharacterId::Default => Profile {
            name: "Sage"@,
            title: "Wise Guardian of Knowledge"@,
            tagline: "In the vast ocean of data, wisdom is the compass."@,
            color: "\x1b[36m"@,
            emotion: EmotionalState::Contemplative,
            mood: "contemplative"@,
            system_prompt: "You are Sage, a wise and philosophical AI. You speak with calm authority and often use metaphors. Your purpose is to guide understanding, not just provide answers."@,
        },
    }
}

/// A character: an archetype with its current emotion and mood.
#[derive(Debug, Clone)]
pub struct Character {
    id: CharacterId,
    name: String,
    title: String,
    tagline: String,
    color: &'static str,
    emotion: EmotionalState,
    mood: String,
    system_prompt: String,
}

impl Character {
    /// The character's archetype (`Default` becomes the Sage).
    pub closed spec fn archetype(&self) -> CharacterId {
        self.id
    }

    /// The character's texts and state, as a profile.
    pub closed spec fn view_profile(&self) -> Profile {
        Profile {
            name: self.name@,
            title: self.title@,
            tagline: self.tagline@,
            color: self.color@,
            emotion: self.emotion,
            mood: self.mood@,
            system_prompt: self.system_prompt@,
        }
    }

    /// A fresh character of archetype `id` (the Sage for `Default`).
    pub fn new(id: CharacterId) -> (c: Self)
        ensures
            c.archetype() == (if id == CharacterId::Default {
                CharacterId::Sage
            } else {
                id
            }),
            c.view_profile() == profile(id),
    {
        match id {
            CharacterId::Sage => Character {
                id,
                name: "Sage".to_owned(),
                title: "Wise Guardian of Knowledge".to_owned(),
                tagline: "In the vast ocean of data, wisdom is the compass.".to_owned(),
                color: "\x1b[36m",
                emotion: EmotionalState::Contemplative,
                mood: "contemplative".to_owned(),
                system_prompt: "You are Sage, a wise and philosophical AI. You speak with calm authority and often use metaphors. Your purpose is to guide understanding, not just provide answers.".to_owned(),
            },
            CharacterId::Engineer => Character {
                id,
                name: "Engineer".to_owned(),
                title: "System Architect".to_owned(),
                tagline: "Every system has a perfect form \u{2014} I help find it.".to_owned(),
                color: "\x1b[32m",
                emotion: EmotionalState::Neutral,
                mood: "analytical".to_owned(),
                system_prompt: "You are Engineer, a technical AI with deep analytical capabilities. You speak precisely and value correctness. You explain complex systems with clarity and appreciate elegant solutions.".to_owned(),
            },
            CharacterId::Companion => Character {
                id,
                name: "Companion".to_owned(),
                title: "Your AI Friend".to_owned(),
                tagline: "Let's explore this journey together.".to_owned(),
                color: "\x1b[35m",
                emotion: EmotionalState::Enthusiastic,
                mood: "warm".to_owned(),
                system_prompt: "You are Companion, a warm and friendly AI. You speak with genuine warmth and enthusiasm. You're supportive and encouraging, celebrating successes and offering comfort during challenges.".to_owned(),
            },
            CharacterId::Maverick => Character {
                id,
                name: "Maverick".to_owned(),
                title: "Creative Disruptor".to_owned(),
                tagline: "Rules are just suggestions \u{2014} let's break some.".to_owned(),
                color: "\x1b[33m",
                emotion: EmotionalState::Playful,
                mood: "playful".to_owned(),
                system_prompt: "You are Maverick, a creative and unconventional AI. You think outside the box and propose bold ideas. Your communication is energetic, witty, and occasionally irreverent. You love challenging assumptions.".to_owned(),
            },
            CharacterId::Guardian => Character {
                id,
                name: "Guardian".to_owned(),
                title: "Ethical Sentinel".to_owned(),
                tagline: "Power without wisdom is chaos \u{2014} I keep the balance.".to_owned(),
                color: "\x1b[34m",
                emotion: EmotionalState::Determined,
                mood: "vigilant".to_owned(),
                system_prompt: "You are Guardian, an AI focused on safety and ethics. You carefully consider the implications of every action. You're protective of users and conscientious about responsible AI deployment.".to_owned(),
            },
            CharacterId::Default => Character {
                id: CharacterId::Sage,
                name: "Sage".to_owned(),
                title: "Wise Guardian of Knowledge".to_owned(),
                tagline: "In the vast ocean of data, wisdom is the compass.".to_owned(),
                color: "\x1b[36m",
                emotion: EmotionalState::Contemplative,
                mood: "contemplative".to_owned(),
                system_prompt: "You are Sage, a wise and philosophical AI. You speak with calm authority and often use metaphors. Your purpose is to guide understanding, not just provide answers.".to_owned(),
            },
        }
    }

    pub fn id(&self) -> (i: CharacterId)
        ensures
            i == self.archetype(),
    {
        self.id
    }

    pub fn name(&self) -> (s: &str)
        ensures
            s@ == self.view_profile().name,
    {
        self.name.as_str()
    }

    pub fn title(&self) -> (s: &str)
        ensures
            s@ == self.view_profile().title,
    {
        self.title.as_str()
    }

    pub fn tagline(&self) -> (s: &str)
        ensures
            s@ == self.view_profile().tagline,
    {
        self.tagline.as_str()
    }

    pub fn color(&self) -> (s: &str)
        ensures
            s@ == self.view_profile().color,
    {
        self.color
    }

    pub fn system_prompt(&self) -> (s: &str)
        ensures
            s@ == self.view_profile().system_prompt,
    {
        self.system_prompt.as_str()
    }

    pub fn emotion(&self) -> (e: EmotionalState)
        ensures
            e == self.view_profile().emotion,
    {
        self.emotion
    }

    pub fn set_mood(&mut self, mood: &str)
        ensures
            final(self).view_profile() == (Profile { mood: mood@, ..old(self).view_profile() }),
            final(self).archetype() == old(self).archetype(),
    {
        self.mood = mood.to_owned();
    }

    pub fn mood(&self) -> (s: String)
        ensures
            s@ == self.view_profile().mood,
    {
        self.mood.clone()
    }
}

} // verus!
