use omega_agi::agent::{final_answer_request, format_help};
use omega_agi::agent::orchestrator::specialist_format_retry;
use omega_agi::agent::react::format_retry;
use omega_agi::agent::orchestrator::decomposition;
use omega_agi::agent::llm::{mock_response, Message as LlmMessage};
use omega_agi::agent::orchestrator::{
    assign_agent, count_completed, decompose_prompt, json_payload, permission_denied, role_profile,
    specialist_parse_action, specialist_parse_answer, specialist_prompt, synthesis_prompt, task_input,
    tool_permitted, AgentRole, Next, Schedule, Task, TaskStatus,
};
use omega_agi::agent::react::{
    exhausted_answer, extract_tag, is_internal_thought, observation, parse_step, thought_observation,
    LlmStep, ReActEngine,
};
use omega_agi::agent::tool::{ThinkTool, ToolResult};
use omega_agi::agent::tools::{all_tools, tool_descriptions_prompt};
use omega_agi::agent::{parse_action, parse_answer, steps_exhausted, truncate_output};

#[test]
fn extract_tag_reads_up_to_stop() {
    let text = "Thought: x\nAction: health\nAction Input: {\"a\":1}\nAction: more";
    assert_eq!(extract_tag(text, "Action Input:", Some("Action:")).as_deref(), Some("{\"a\":1}"));
    assert_eq!(extract_tag(text, "Answer:", None), None);
}

#[test]
fn parse_step_prefers_answers() {
    match parse_step("Thought: done\nAnswer:  42 \nAction: x") {
        LlmStep::Answer(a) => assert_eq!(a, "42 \nAction: x".trim()),
        _ => panic!("expected an answer"),
    }
    match parse_step("Thought: t\nAction:  Health \nAction Input: {}") {
        LlmStep::Action { name, args } => {
            assert_eq!(name, "health \naction input: {}");
            assert_eq!(args, "{}");
        }
        _ => panic!("expected an action"),
    }
    match parse_step("no format") {
        LlmStep::ParseFailed(m) => {
            assert_eq!(m, "Could not parse LLM response into Action/Answer format.\nRaw output:\nno format")
        }
        _ => panic!("expected a parse failure"),
    }
}

#[test]
fn agent_answer_and_action() {
    assert_eq!(parse_answer("Thought: ok\nAnswer: yes\n\nmore").as_deref(), Some("yes"));
    assert_eq!(parse_answer("Answer: a\nAction: b").as_deref(), Some("a"));
    assert_eq!(parse_answer("nothing"), None);
    assert_eq!(
        parse_action("Action: READ file\nAction Input: {\"path\":\"x\"}\n"),
        Some(("read".to_string(), "{\"path\":\"x\"}".to_string()))
    );
    assert_eq!(parse_action("Action: bash"), None);
    assert_eq!(parse_action("Action: \nAction Input: {}"), None);
}

#[test]
fn specialist_protocol() {
    assert_eq!(specialist_parse_answer("Answer: done\n\nextra").as_deref(), Some("done"));
    assert_eq!(
        specialist_parse_action("Action:  Run Tests \nAction Input:"),
        Some(("run tests".to_string(), "{}".to_string()))
    );
    let allowed = vec!["read".to_string(), "search".to_string()];
    assert!(tool_permitted(&allowed, "read"));
    assert!(!tool_permitted(&allowed, "bash"));
    assert!(tool_permitted(&vec![], "anything"));
    assert_eq!(
        permission_denied("bash", &allowed),
        "Error: You don't have permission to use 'bash'. Allowed: read, search"
    );
}

#[test]
fn unknown_agents_fall_back_by_description() {
    assert_eq!(assign_agent("research-agent", true, "whatever"), "research-agent");
    assert_eq!(assign_agent("ghost", false, "Deploy the service"), "system-agent");
    assert_eq!(assign_agent("ghost", false, "Watch the logs"), "monitoring-agent");
    assert_eq!(assign_agent("ghost", false, "Find papers"), "research-agent");
    assert_eq!(assign_agent("ghost", false, "Something"), "coding-agent");
}

fn task(id: &str, desc: &str, deps: &[&str]) -> Task {
    Task::pending(
        id.to_string(),
        desc.to_string(),
        "coding-agent".to_string(),
        deps.iter().map(|d| d.to_string()).collect(),
    )
}

#[test]
fn schedule_runs_each_task_once_in_dependency_order() {
    let tasks = vec![task("t1", "write parser", &[]), task("t2", "test parser", &["t1"])];
    let mut s = Schedule::new(tasks);
    let mut ran = Vec::new();
    loop {
        match s.next() {
            Next::Run(i) => {
                let t = s.take(i, false);
                ran.push(t.id.clone());
                s.record(t, Ok(format!("done {}", ran.len())));
            }
            Next::Force(i) => {
                let t = s.take(i, true);
                ran.push(t.id.clone());
                s.record(t, Err("boom".to_string()));
            }
            Next::Done => break,
        }
    }
    assert_eq!(ran, vec!["t1".to_string(), "t2".to_string()]);
    assert_eq!(s.finished().len(), 2);
    assert_eq!(s.context(), "done 1\n---\ndone 2");
    assert!(matches!(s.finished()[0].status, TaskStatus::Completed(_)));
}

#[test]
fn schedule_forces_a_task_when_stuck() {
    let tasks = vec![task("t1", "a", &["never"]), task("t2", "b", &["t1"])];
    let mut s = Schedule::new(tasks);
    match s.next() {
        Next::Force(i) => {
            assert_eq!(i, 1);
            let t = s.take(i, true);
            s.record(t, Err("no agent".to_string()));
        }
        _ => panic!("expected a forced run"),
    }
    assert_eq!(s.context(), "Error: no agent");
    assert!(matches!(s.finished()[0].status, TaskStatus::Failed(_)));
}

#[test]
fn react_texts() {
    assert_eq!(observation(true, "out"), "Observation:\nout");
    assert_eq!(observation(false, "bad"), "Observation (error):\nbad");
    assert_eq!(thought_observation("hmm"), "Observation (internal thought): hmm");
    assert!(is_internal_thought("reason"));
    assert!(!is_internal_thought("read"));
    assert_eq!(
        exhausted_answer(3, "last"),
        "Reached max steps (3) without a final answer. Last LLM output:\nlast"
    );
    assert_eq!(steps_exhausted(15, "x"), "Maximum steps reached (15). Last response:\nx");
    assert_eq!(ReActEngine::new(4).max_steps(), 4);
    assert_eq!(ReActEngine::default().max_steps(), 15);
}

#[test]
fn truncation_notes_the_length() {
    assert_eq!(truncate_output("short", 10), "short");
    assert_eq!(truncate_output("abcdefgh", 3), "abc...\n[truncated, 8 total chars]");
}

#[test]
fn tools_and_results() {
    let ok = ToolResult::ok("read", "content");
    assert!(ok.success && ok.tool_name == "read" && ok.output == "content");
    let unknown = ToolResult::unknown_tool("fly", &vec!["read".to_string(), "write".to_string()]);
    assert!(!unknown.success);
    assert_eq!(unknown.output, "Unknown tool: 'fly'. Available: read, write");
    let think = ThinkTool.record(5);
    assert_eq!(think.output, "Thought recorded (5 chars)");
    assert_eq!(ThinkTool.name(), "think");
    assert_eq!(all_tools().len(), 11);
    assert_eq!(all_tools()[0].name, "health");
    let prompt = tool_descriptions_prompt();
    assert!(prompt.starts_with("You have access to the following tools:\n\n- **health**: "));
    assert!(prompt.contains("- **bash**: Execute a shell command."));
    assert!(prompt.ends_with("Thought: <your reasoning>\nAnswer: <final answer>\n"));
}

#[test]
fn offline_llm_reply() {
    let msgs = vec![LlmMessage::user("please diagnose the system")];
    assert!(mock_response(&msgs).starts_with("Thought: The user wants a full system diagnostic."));
    let msgs = vec![LlmMessage::user("hello")];
    assert_eq!(
        mock_response(&msgs),
        "Thought: I'll first check the system health to understand the current state.\nAction: health\nAction Input: {}\n"
    );
}

#[test]
fn role_profiles() {
    let r = role_profile(AgentRole::Research);
    assert_eq!(r.name, "research-agent");
    assert_eq!(r.allowed_tools, vec!["read", "search", "health", "diagnose"]);
    assert_eq!(r.model, "gpt-4o");
    assert_eq!(r.temperature_tenths, 4);
    assert!(r.role.starts_with("You are the Research Agent."));
    let m = role_profile(AgentRole::Monitor);
    assert_eq!(m.name, "monitor-agent");
    assert_eq!(m.allowed_tools, vec!["health", "diagnose"]);
    assert_eq!(m.temperature_tenths, 1);
    let o = role_profile(AgentRole::Orchestrator);
    assert_eq!(o.allowed_tools, vec!["assign_task", "review_result", "finalize"]);
    assert!(o.role.ends_with("5. Ensure consistency across all work"));
    assert_eq!(role_profile(AgentRole::System).name, "system-agent");
    assert_eq!(role_profile(AgentRole::Coding).allowed_tools.len(), 5);
}

#[test]
fn orchestration_prompts() {
    let p = specialist_prompt("ROLE", "TOOLS", &vec![]);
    assert!(p.starts_with("ROLE\n\nTOOLS\n\nYou have access to these tools: all tools\n\nAlways respond with:"));
    let p = specialist_prompt("R", "T", &vec!["read".to_string(), "bash".to_string()]);
    assert!(p.contains("You have access to these tools: read, bash\n"));
    let d = decompose_prompt(&vec!["a".to_string(), "b".to_string()], "build it");
    assert!(d.contains("Available agents: a, b\n\nTask: build it\n\n"));
    assert!(d.ends_with("output pure JSON only."));
    assert_eq!(json_payload("  ```json\n[1]\n```  "), "[1]");
    assert_eq!(json_payload("```[2]``````"), "[2]");
    assert_eq!(json_payload("[3]"), "[3]");
    assert_eq!(task_input("ctx", "do", false), "Context from previous steps:\nctx\n\nTask: do");
    assert_eq!(task_input("ctx", "do", true), "do");
}

#[test]
fn synthesis_lists_finished_tasks() {
    let mut a = task("1", "first", &[]);
    a.status = TaskStatus::Completed("ok".to_string());
    let mut b = task("2", "second", &[]);
    b.status = TaskStatus::Failed("boom".to_string());
    let c = task("3", "third", &[]);
    let done = vec![a, b, c];
    let s = synthesis_prompt("goal", &done);
    let ag = done[0].assigned_to.clone();
    assert_eq!(
        s,
        format!(
            "Synthesize the following results from multiple agents into a coherent final answer.\n\nOriginal task: goal\n\nResults:\n## {ag} (first)\nok\n\n## {ag} (second)\n**Failed:** boom\n\n\n\nProvide a unified, well-structured answer."
        )
    );
    assert_eq!(count_completed(&done), 1);
}

#[test]
fn test_agent_identity_creation() {
    let identities = vec![
        role_profile(AgentRole::Orchestrator),
        role_profile(AgentRole::Coding),
        role_profile(AgentRole::Research),
        role_profile(AgentRole::System),
        role_profile(AgentRole::Monitor),
    ];
    assert_eq!(identities.len(), 5);
    for id in &identities {
        assert!(!id.name.is_empty());
        assert!(!id.role.is_empty());
    }
}

#[test]
fn a_result_replaces_the_one_under_the_same_id() {
    let mut s = Schedule::new(vec![task("t1", "a", &[]), task("t1", "b", &[])]);
    let mut n = 0;
    loop {
        match s.next() {
            Next::Run(i) | Next::Force(i) => {
                let t = s.take(i, false);
                n += 1;
                s.record(t, if n == 1 { Ok("first".to_string()) } else { Err("second".to_string()) });
            }
            Next::Done => break,
        }
    }
    assert_eq!(s.finished().len(), 2);
    assert_eq!(s.context(), "Error: second");
}

#[test]
fn decomposition_reads_entries_with_defaults() {
    let known = vec!["research-agent".to_string()];
    let r = decomposition(
        r#"[{"description":"search docs","assigned_to":"research-agent","dependencies":["x",3,"y"]},
            {"assigned_to":"ghost"},
            {"description":"deploy the system","assigned_to":"nobody"}]"#,
        "whole task",
        &known,
    );
    assert_eq!(r.len(), 3);
    assert_eq!(r[0], ("search docs".to_string(), "research-agent".to_string(), vec!["x".to_string(), "y".to_string()]));
    assert_eq!(r[1], ("whole task".to_string(), "coding-agent".to_string(), vec![]));
    assert_eq!(r[2], ("deploy the system".to_string(), "system-agent".to_string(), vec![]));
    let f = decomposition("not json", "whole task", &known);
    assert_eq!(f, vec![("whole task".to_string(), "coding-agent".to_string(), vec![])]);
}

#[test]
fn retry_prompts_show_the_expected_format() {
    assert!(format_retry().starts_with("Your response was not in the correct format."));
    assert!(format_retry().ends_with("Or if you have the final answer:\nThought: <reasoning>\nAnswer: <final answer>"));
    assert!(specialist_format_retry().ends_with("\n\nOr:\nThought: <reasoning>\nAnswer: <final answer>"));
    assert!(format_help().starts_with("Format error: Your response must contain either:\n1. Thought: <reasoning>\n   Action:"));
    assert_eq!(
        final_answer_request(),
        "You have reached the maximum number of reasoning steps. Please provide your final answer now based on what you've learned so far."
    );
}
