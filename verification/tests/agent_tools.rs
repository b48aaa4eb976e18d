use omega_agi::agent::tool::{registry_prompt, ThinkTool, ToolResult};

#[test]
fn registry_prompt_lists_each_tool_then_the_format() {
    let tools = vec![(
        "think".to_string(),
        "Use this for internal reasoning.".to_string(),
        "{}".to_string(),
    )];
    let p = registry_prompt(&tools);
    assert!(p.starts_with("You have access to the following tools:\n\n- **think**: Use this for internal reasoning.  \n  Args: `{}`\n\n"));
    assert!(p.contains("Action:"));
    assert!(p.ends_with("Answer: <final answer>\n"));
}

#[test]
fn registry_prompt_without_tools() {
    let p = registry_prompt(&Vec::new());
    assert!(p.starts_with("You have access to the following tools:\n\nYou MUST respond"));
}

#[test]
fn unknown_tool_lists_available_names() {
    let r = ToolResult::unknown_tool("nonexistent", &vec!["think".to_string(), "search".to_string()]);
    assert!(!r.success);
    assert_eq!(r.output, "Unknown tool: 'nonexistent'. Available: think, search");
    assert_eq!(ThinkTool.record(5).output, "Thought recorded (5 chars)");
}

#[test]
fn react_system_prompt_has_role_tools_and_rules() {
    let p = omega_agi::agent::react::build_system_prompt();
    assert!(p.starts_with("You are **OMEGA AGI Agent** — the autonomous reasoning"));
    assert!(p.contains("You have access to the following tools:\n\n"));
    assert!(p.contains("Important rules:\n1. Always start with `Thought:`"));
    assert!(p.ends_with("C:\\Users\\Fogtao\\Downloads\\omega-agi-supremacy.\n"));
}

#[test]
fn test_tool_registry_system_prompt() {
    let t = ThinkTool;
    let prompt = registry_prompt(&vec![(t.name().to_string(), t.description().to_string(), "{}".to_string())]);
    assert!(prompt.contains("think"));
    assert!(prompt.contains("Action:"));
    assert!(prompt.contains("Answer:"));
}

#[test]
fn agent_prompt_names_the_agent_and_lists_tools() {
    let p = omega_agi::agent::agent_prompt("omega", "TOOLS\n");
    assert!(p.starts_with("You are **omega** — an autonomous AI agent in the OMEGA AGI system.\n\n"));
    assert!(p.contains("internal reasoning.\n\nTOOLS\n\nImportant rules:\n1. Always start"));
    assert!(p.ends_with("6. Be thorough and precise.\n"));
}
