use omega_agi::adapters::feishu_adapter::reads_true;
use omega_agi::agent::engines::{mock_reply_text, route_lowered, EngineChoice};
use omega_agi::agent::knowledge::{lowered_match, query_terms_lowered};
use omega_agi::agent::orchestrator::{fallback_agent_for, subtasks_of, DecomposeEntry};
use omega_agi::agent::react::thought_in;
use omega_agi::avatar::character::CharacterId;
use omega_agi::hypercore::self_heal::{recognizes_lowered, strategies_for, RecoveryStrategy};
use omega_agi::life_harness::push_keeping_last;
use omega_agi::research::extractor::{mentions_in, topic_word_hits_lowered};
use omega_agi::research::searcher::Searcher;

#[test]
fn fallback_agents_follow_description_keywords() {
    assert_eq!(fallback_agent_for("write the parser"), "coding-agent");
    assert_eq!(fallback_agent_for("find related papers"), "research-agent");
    assert_eq!(fallback_agent_for("deploy to staging"), "system-agent");
    assert_eq!(fallback_agent_for("watch the error rate"), "monitoring-agent");
    assert_eq!(fallback_agent_for("tidy up"), "coding-agent");
}

#[test]
fn subtasks_take_defaults_per_entry() {
    let known = vec!["research-agent".to_string()];
    let entries = vec![
        DecomposeEntry {
            description: Some("search docs".to_string()),
            assigned_to: Some("research-agent".to_string()),
            dependencies: Some(vec![Some("a".to_string()), None, Some("b".to_string())]),
        },
        DecomposeEntry { description: None, assigned_to: Some("nobody".to_string()), dependencies: None },
        DecomposeEntry { description: Some("monitor latency".to_string()), assigned_to: None, dependencies: None },
    ];
    let r = subtasks_of(&entries, "the task", &known);
    assert_eq!(r.len(), 3);
    assert_eq!(r[0], ("search docs".to_string(), "research-agent".to_string(), vec!["a".to_string(), "b".to_string()]));
    assert_eq!(r[1], ("the task".to_string(), "coding-agent".to_string(), vec![]));
    assert_eq!(r[2], ("monitor latency".to_string(), "monitoring-agent".to_string(), vec![]));
}

#[test]
fn lowered_issues_pick_strategies() {
    assert!(recognizes_lowered("connection timeout"));
    assert!(recognizes_lowered("stale cache"));
    assert!(!recognizes_lowered("whatever"));
    let s = strategies_for("db", "connection refused and version mismatch");
    assert_eq!(s.len(), 2);
    assert!(matches!(&s[0], RecoveryStrategy::RestartWithBackoff { target, initial_delay_ms: 500, max_delay_ms: 15000 } if target == "db"));
    assert!(matches!(&s[1], RecoveryStrategy::RollbackToLastGood { target, version: None } if target == "db"));
    let d = strategies_for("db", "whatever");
    assert_eq!(d.len(), 1);
    assert!(matches!(&d[0], RecoveryStrategy::RestartWithBackoff { initial_delay_ms: 1000, max_delay_ms: 30000, .. }));
}

#[test]
fn lowered_conversations_route_and_reply() {
    assert_eq!(route_lowered("generate a rust function"), EngineChoice::Code);
    assert_eq!(route_lowered("hello"), EngineChoice::Fast);
    assert_eq!(route_lowered("tell me about the weather in detail please, thanks a lot"), EngineChoice::Default);
    assert!(mock_reply_text("Check HEALTH", "check health").contains("Action: health"));
    assert!(mock_reply_text("Code?", "code?").contains("Answer: I can generate code!"));
    assert_eq!(
        mock_reply_text("Hi There", "hi there"),
        "Thought: I received: \"Hi There\". Let me check system health first.\nAction: health\nAction Input: {}"
    );
}

#[test]
fn lowered_names_and_settings() {
    assert_eq!(CharacterId::from_lowered("tech"), CharacterId::Engineer);
    assert_eq!(CharacterId::from_lowered("protector"), CharacterId::Guardian);
    assert_eq!(CharacterId::from_lowered("Sage"), CharacterId::Default);
    assert!(reads_true("true"));
    assert!(!reads_true("TRUE"));
}

#[test]
fn lowered_topics_count_hits() {
    assert_eq!(topic_word_hits_lowered("rust makes systems safe", "rust systems go"), (2, 3));
    let ws = vec!["alpha".to_string(), "beta".to_string()];
    assert_eq!(mentions_in(&ws, "alphabet soup"), 1);
    let q = query_terms_lowered("the big rust compiler");
    assert_eq!(q, vec!["the".to_string(), "big".to_string(), "rust".to_string(), "compiler".to_string()]);
    assert!(lowered_match("rust book", "", "rust"));
    assert!(lowered_match("", "all about rust", "rust"));
    assert!(!lowered_match("go", "python", "rust"));
}

#[test]
fn lowered_search_matches_search() {
    let s = Searcher::new(2);
    let a = s.search("AGI Systems");
    let b = s.search_lowered("agi systems");
    assert_eq!(a.len(), b.len());
    for (x, y) in a.iter().zip(b.iter()) {
        assert_eq!(x.url, y.url);
        assert_eq!(x.relevance_pct, y.relevance_pct);
    }
}

#[test]
fn thoughts_come_from_the_arguments() {
    assert_eq!(thought_in(r#"{"thought":"plan first"}"#), "plan first");
    assert_eq!(thought_in(r#"{"other":1}"#), "...");
    assert_eq!(thought_in("not json"), "...");
    assert_eq!(thought_in(r#"{"thought":7}"#), "...");
}

#[test]
fn histories_keep_their_most_recent_items() {
    let mut h: Vec<u32> = Vec::new();
    for i in 0..5u32 {
        push_keeping_last(&mut h, i, 3);
    }
    assert_eq!(h, vec![2, 3, 4]);
    let mut z: Vec<u32> = Vec::new();
    push_keeping_last(&mut z, 9, 0);
    assert!(z.is_empty());
}
