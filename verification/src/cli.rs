//! The command line: which command a word names, which action a command's first
//! argument asks for, and how results are cut to fit a panel.
use vstd::prelude::*;
use vstd::string::StringSliceAdditionalSpecFns;
use vstd::utf8::{encode_utf8, is_char_boundary};
use crate::superpowers::boost::BoostMode;
use crate::text::{eq_str, push_str};

verus! {

/// A top-level command.
#[derive(Debug, Clone, Copy, PartialEq, Eq, Structural)]
pub enum Command {
    Run,
    Evolve,
    Interactive,
    Check,
    Apex,
    Research,
    Life,
    Superpowers,
    Avatar,
    Transcend,
    Adapters,
    Help,
}

/// The command a word names; any other word asks for help.
pub open spec fn command_spec(w: Seq<char>) -> Command {
    if w == "run"@ {
        Command::Run
    } else if w == "evolve"@ {
        Command::Evolve
    } else if w == "interactive"@ || w == "chat"@ {
        Command::Interactive
    } else if w == "check"@ || w == "health"@ {
        Command::Check
    } else if w == "apex"@ || w == "apex-evolve"@ {
        Command::Apex
    } else if w == "research"@ || w == "rs"@ {
        Command::Research
    } else if w == "life"@ || w == "lh"@ || w == "harness"@ {
        Command::Life
    } else if w == "superpowers"@ || w == "sp"@ || w == "boost"@ {
        Command::Superpowers
    } else if w == "avatar"@ || w == "av"@ || w == "character"@ {
        Command::Avatar
    } else if w == "transcend"@ || w == "tc"@ || w == "transcendence"@ {
        Command::Transcend
    } else if w == "adapters"@ || w == "ad"@ {
        Command::Adapters
    } else {
        Command::Help
    }
}

/// Whether `w` is one of `words`.
fn one_of(w: &str, words: &[&str]) -> (b: bool)
    ensures
        b == exists|i: int| 0 <= i < words@.len() && words@[i]@ == w@,
{
    let mut i: usize = 0;
    while i < words.len()
        invariant
            i <= words@.len(),
            forall|j: int| 0 <= j < i ==> words@[j]@ != w@,
        decreases words.len() - i,
    {
        if eq_str(words[i], w) {
            return true;
        }
        i = i + 1;
    }
    false
}

/// The command the first argument names; `check` when there is none.
pub fn command_named(arg: Option<&str>) -> (c: Command)
    ensures
        c == match arg {
            Some(w) => command_spec(w@),
            None => Command::Check,
        },
{
    let w = match arg {
        Some(w) => w,
        None => return Command::Check,
    };
    if eq_str(w, "run") {
        Command::Run
    } else if eq_str(w, "evolve") {
        Command::Evolve
    } else if eq_str(w, "interactive") || eq_str(w, "chat") {
        Command::Interactive
    } else if eq_str(w, "check") || eq_str(w, "health") {
        Command::Check
    } else if eq_str(w, "apex") || eq_str(w, "apex-evolve") {
        Command::Apex
    } else if eq_str(w, "research") || eq_str(w, "rs") {
        Command::Research
    } else if one_of(w, &["life", "lh", "harness"]) {
        Command::Life
    } else if one_of(w, &["superpowers", "sp", "boost"]) {
        Command::Superpowers
    } else if one_of(w, &["avatar", "av", "character"]) {
        Command::Avatar
    } else if one_of(w, &["transcend", "tc", "transcendence"]) {
        Command::Transcend
    } else if eq_str(w, "adapters") || eq_str(w, "ad") {
        Command::Adapters
    } else {
        Command::Help
    }
}

/// What the `life` command is asked to do.
#[derive(Debug, Clone, PartialEq, Eq)]
pub enum LifeAction {
    Status,
    Health,
    Resources,
    Heartbeat,
    Persist,
    Recover,
    Unknown(String),
}

/// The `life` action its argument names; `status` when there is none.
pub fn life_action(arg: Option<&str>) -> (a: LifeAction)
    ensures
        match arg {
            None => a == LifeAction::Status,
            Some(w) => match a {
                LifeAction::Status => w@ == "status"@,
                LifeAction::Health => w@ == "health"@,
                LifeAction::Resources => w@ == "resources"@ || w@ == "res"@,
                LifeAction::Heartbeat => w@ == "heartbeat"@ || w@ == "hb"@,
                LifeAction::Persist => w@ == "persist"@ || w@ == "save"@,
                LifeAction::Recover => w@ == "restore"@ || w@ == "recover"@,
                LifeAction::Unknown(o) => o@ == w@ && w@ != "status"@ && w@ != "health"@ && w@ != "resources"@
                    && w@ != "res"@ && w@ != "heartbeat"@ && w@ != "hb"@ && w@ != "persist"@ && w@ != "save"@
                    && w@ != "restore"@ && w@ != "recover"@,
            },
        },
{
    match arg {
        None => LifeAction::Status,
        Some(w) => if eq_str(w, "status") {
            LifeAction::Status
        } else if eq_str(w, "health") {
            LifeAction::Health
        } else if eq_str(w, "resources") || eq_str(w, "res") {
            LifeAction::Resources
        } else if eq_str(w, "heartbeat") || eq_str(w, "hb") {
            LifeAction::Heartbeat
        } else if eq_str(w, "persist") || eq_str(w, "save") {
            LifeAction::Persist
        } else if eq_str(w, "restore") || eq_str(w, "recover") {
            LifeAction::Recover
        } else {
            LifeAction::Unknown(w.to_owned())
        },
    }
}

/// What the `superpowers` command is asked to do.
#[derive(Debug, Clone, PartialEq, Eq)]
pub enum SuperpowerAction {
    Status,
    Optimize,
    Boost(BoostMode),
    Analyze,
    Heal,
    Unknown(String),
}

/// The boost mode a word names: eco, turbo or overdrive, else normal.
pub open spec fn boost_named(w: Option<Seq<char>>) -> BoostMode {
    match w {
        Some(m) => if m == "eco"@ {
            BoostMode::Eco
        } else if m == "turbo"@ {
            BoostMode::Turbo
        } else if m == "overdrive"@ {
            BoostMode::Overdrive
        } else {
            BoostMode::Normal
        },
        None => BoostMode::Normal,
    }
}

/// The `superpowers` action its first argument names (`status` when there is none),
/// the second giving the boost mode.
pub fn superpower_action(arg: Option<&str>, mode: Option<&str>) -> (a: SuperpowerAction)
    ensures
        match arg {
            None => a == SuperpowerAction::Status,
            Some(w) => match a {
                SuperpowerAction::Status => w@ == "status"@,
                SuperpowerAction::Optimize => w@ == "optimize"@ || w@ == "opt"@,
                SuperpowerAction::Boost(m) => w@ == "boost"@ && m == boost_named(
                    match mode {
                        Some(x) => Some(x@),
                        None => None,
                    },
                ),
                SuperpowerAction::Analyze => w@ == "analyze"@ || w@ == "diag"@,
                SuperpowerAction::Heal => w@ == "heal"@,
                SuperpowerAction::Unknown(o) => o@ == w@ && w@ != "status"@ && w@ != "optimize"@ && w@ != "opt"@
                    && w@ != "boost"@ && w@ != "analyze"@ && w@ != "diag"@ && w@ != "heal"@,
            },
        },
{
    match arg {
        None => SuperpowerAction::Status,
        Some(w) => if eq_str(w, "status") {
            SuperpowerAction::Status
        } else if eq_str(w, "optimize") || eq_str(w, "opt") {
            SuperpowerAction::Optimize
        } else if eq_str(w, "boost") {
            let m = match mode {
                Some(x) => if eq_str(x, "eco") {
                    BoostMode::Eco
                } else if eq_str(x, "turbo") {
                    BoostMode::Turbo
                } else if eq_str(x, "overdrive") {
                    BoostMode::Overdrive
                } else {
                    BoostMode::Normal
                },
                None => BoostMode::Normal,
            };
            SuperpowerAction::Boost(m)
        } else if eq_str(w, "analyze") || eq_str(w, "diag") {
            SuperpowerAction::Analyze
        } else if eq_str(w, "heal") {
            SuperpowerAction::Heal
        } else {
            SuperpowerAction::Unknown(w.to_owned())
        },
    }
}

/// What the `adapters` command is asked to do.
#[derive(Debug, Clone, PartialEq, Eq)]
pub enum AdapterAction {
    List,
    SetActive,
    Info,
    Unknown(String),
}

/// The `adapters` action its argument names; `list` when there is none.
pub fn adapter_action(arg: Option<&str>) -> (a: AdapterAction)
    ensures
        match arg {
            None => a == AdapterAction::List,
            Some(w) => match a {
                AdapterAction::List => w@ == "list"@,
                AdapterAction::SetActive => w@ == "set"@,
                AdapterAction::Info => w@ == "info"@,
                AdapterAction::Unknown(o) => o@ == w@ && w@ != "list"@ && w@ != "set"@ && w@ != "info"@,
            },
        },
{
    match arg {
        None => AdapterAction::List,
        Some(w) => if eq_str(w, "list") {
            AdapterAction::List
        } else if eq_str(w, "set") {
            AdapterAction::SetActive
        } else if eq_str(w, "info") {
            AdapterAction::Info
        } else {
            AdapterAction::Unknown(w.to_owned())
        },
    }
}

/// `s` cut to its first `max - 3` bytes (none when `max` is under 3) followed by
/// `...`, when it is longer than `max` bytes.
pub fn truncate(s: &str, max: usize) -> (r: String)
    requires
        s.len() > max ==> is_char_boundary(s.spec_bytes(), if max >= 3 { max - 3 } else { 0 }),
    ensures
        s.len() <= max ==> r@ == s@,
        s.len() > max ==> exists|h: Seq<char>|
            encode_utf8(h) == s.spec_bytes().subrange(0, if max >= 3 { max - 3 } else { 0 }) && r@ == h + "..."@,
{
    if s.len() <= max {
        s.to_owned()
    } else {
        let cut = if max >= 3 {
            max - 3
        } else {
            0
        };
        let (head, _rest) = s.split_at(cut);
        let mut r = String::new();
        push_str(&mut r, head);
        push_str(&mut r, "...");
        assert(encode_utf8(head@) == s.spec_bytes().subrange(0, cut as int));
        r
    }
}

} // verus!
