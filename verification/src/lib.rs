//! Verified core of the OMEGA AGI layered system: self-healing, task graphs,
//! test-output parsing, recovery policies, agent text protocols and more.
#![allow(unused_imports)]

pub mod text;
pub mod keyed;
pub mod json;
pub mod cli;
pub mod adapters;
pub mod agent;
pub mod avatar;
pub mod clock;
pub mod runtime;
pub mod hypercore;
pub mod life_harness;
pub mod research;
pub mod superpowers;
pub mod engineering;
pub mod evolution;

use vstd::prelude::*;
use crate::text::eq_str;

verus! {

/// Top-level configuration.
#[derive(Debug, Clone)]
pub struct Config {
    pub github_token: Option<String>,
    pub openai_api_key: Option<String>,
    pub log_level: String,
    pub data_dir: String,
    pub enable_transcendence: bool,
}

/// An optional setting, kept only when not empty.
pub open spec fn nonempty(v: Option<Seq<char>>) -> Option<Seq<char>> {
    match v {
        Some(s) => if s.len() > 0 {
            Some(s)
        } else {
            None
        },
        None => None,
    }
}

/// The text view of an optional string.
pub open spec fn opt_view(v: Option<String>) -> Option<Seq<char>> {
    match v {
        Some(s) => Some(s@),
        None => None,
    }
}

fn keep_nonempty(v: Option<String>) -> (r: Option<String>)
    ensures
        opt_view(r) == nonempty(opt_view(v)),
{
    match v {
        Some(s) => if s.as_str().is_empty() {
            None
        } else {
            Some(s)
        },
        None => None,
    }
}

/// Transcendence is on unless its setting reads `0` or `false`.
pub fn transcendence_enabled(setting: Option<&str>) -> (b: bool)
    ensures
        b == match setting {
            Some(v) => v@ != "0"@ && v@ != "false"@,
            None => true,
        },
{
    match setting {
        Some(v) => !eq_str(v, "0") && !eq_str(v, "false"),
        None => true,
    }
}

impl Config {
    /// The configuration from the environment's settings: a GitHub token and an
    /// API key only when not empty (the OpenAI key, or when it is not set the OMEGA
    /// one), the log level (`info` by default), the data directory (`./data` by
    /// default), and transcendence unless disabled.
    pub fn from_settings(
        github_token: Option<String>,
        openai_api_key: Option<String>,
        omega_api_key: Option<String>,
        log_level: Option<String>,
        data_dir: Option<String>,
        transcendence: Option<&str>,
    ) -> (c: Self)
        ensures
            opt_view(c.github_token) == nonempty(opt_view(github_token)),
            opt_view(c.openai_api_key) == nonempty(
                if openai_api_key is Some {
                    opt_view(openai_api_key)
                } else {
                    opt_view(omega_api_key)
                },
            ),
            c.log_level@ == match log_level {
                Some(l) => l@,
                None => "info"@,
            },
            c.data_dir@ == match data_dir {
                Some(d) => d@,
                None => "./data"@,
            },
            c.enable_transcendence == match transcendence {
                Some(v) => v@ != "0"@ && v@ != "false"@,
                None => true,
            },
    {
        let key = match openai_api_key {
            Some(k) => Some(k),
            None => omega_api_key,
        };
        Config {
            github_token: keep_nonempty(github_token),
            openai_api_key: keep_nonempty(key),
            log_level: match log_level {
                Some(l) => l,
                None => "info".to_owned(),
            },
            data_dir: match data_dir {
                Some(d) => d,
                None => "./data".to_owned(),
            },
            enable_transcendence: transcendence_enabled(transcendence),
        }
    }

    pub fn with_github_token(self, token: &str) -> (c: Self)
        ensures
            c.github_token matches Some(t) && t@ == token@,
            opt_view(c.openai_api_key) == opt_view(self.openai_api_key),
            c.log_level@ == self.log_level@,
            c.data_dir@ == self.data_dir@,
            c.enable_transcendence == self.enable_transcendence,
    {
        let mut c = self;
        c.github_token = Some(token.to_owned());
        c
    }

    pub fn with_log_level(self, level: &str) -> (c: Self)
        ensures
            c.log_level@ == level@,
            opt_view(c.github_token) == opt_view(self.github_token),
            opt_view(c.openai_api_key) == opt_view(self.openai_api_key),
            c.data_dir@ == self.data_dir@,
            c.enable_transcendence == self.enable_transcendence,
    {
        let mut c = self;
        c.log_level = level.to_owned();
        c
    }
}

} // verus!
