//! The descriptors of the tools offered to the agent, and their prompt text.
use vstd::prelude::*;
use crate::text::push_str;

verus! {

/// Tool descriptor: name, description and the JSON schema of its arguments.
#[derive(Debug, Clone, Copy)]
pub struct ToolDescriptor {
    pub name: &'static str,
    pub description: &'static str,
    pub args_json_schema: &'static str,
}

/// The view of a descriptor: its three texts.
pub open spec fn descriptor_view(d: ToolDescriptor) -> (Seq<char>, Seq<char>, Seq<char>) {
    (d.name@, d.description@, d.args_json_schema@)
}

/// Name, description and argument schema of every tool available to the agent, in
/// order.
pub open spec fn tool_catalog() -> Seq<(Seq<char>, Seq<char>, Seq<char>)> {
    seq![
        (r#"health"#@, r#"Check the overall health of the OMEGA AGI system."#@, r#"{}"#@),
        (r#"diagnose"#@, r#"Run a full diagnostic of the system."#@, r#"{}"#@),
        (r#"heal"#@, r#"Attempt to automatically heal a subsystem."#@, r#"{"type":"object","properties":{"target":{"type":"string"},"issue":{"type":"string"}},"required":["target","issue"]}"#@),
        (r#"codegen"#@, r#"Generate code in a specified language."#@, r#"{"type":"object","properties":{"description":{"type":"string"},"language":{"type":"string","enum":["rust","python"]}},"required":["description","language"]}"#@),
        (r#"evolve"#@, r#"Run one cycle of the evolution engine."#@, r#"{}"#@),
        (r#"evolve_full"#@, r#"Run the complete auto-evolve pipeline."#@, r#"{}"#@),
        (r#"read"#@, r#"Read a file from the filesystem."#@, r#"{"type":"object","properties":{"path":{"type":"string"}},"required":["path"]}"#@),
        (r#"write"#@, r#"Write content to a file."#@, r#"{"type":"object","properties":{"path":{"type":"string"},"content":{"type":"string"}},"required":["path","content"]}"#@),
        (r#"search"#@, r#"Search source code for a pattern."#@, r#"{"type":"object","properties":{"pattern":{"type":"string"}},"required":["pattern"]}"#@),
        (r#"ls"#@, r#"List directory contents."#@, r#"{"type":"object","properties":{"path":{"type":"string"}},"required":["path"]}"#@),
        (r#"bash"#@, r#"Execute a shell command."#@, r#"{"type":"object","properties":{"command":{"type":"string"}},"required":["command"]}"#@)
    ]
}

/// All tools available to the agent (see `tool_catalog`).
pub fn all_tools() -> (v: Vec<ToolDescriptor>)
    ensures
        v@.map_values(|d: ToolDescriptor| descriptor_view(d)) == tool_catalog(),
{
    let mut v: Vec<ToolDescriptor> = Vec::new();
    v.push(ToolDescriptor { name: r#"health"#, description: r#"Check the overall health of the OMEGA AGI system."#, args_json_schema: r#"{}"# });
    v.push(ToolDescriptor { name: r#"diagnose"#, description: r#"Run a full diagnostic of the system."#, args_json_schema: r#"{}"# });
    v.push(ToolDescriptor { name: r#"heal"#, description: r#"Attempt to automatically heal a subsystem."#, args_json_schema: r#"{"type":"object","properties":{"target":{"type":"string"},"issue":{"type":"string"}},"required":["target","issue"]}"# });
    v.push(ToolDescriptor { name: r#"codegen"#, description: r#"Generate code in a specified language."#, args_json_schema: r#"{"type":"object","properties":{"description":{"type":"string"},"language":{"type":"string","enum":["rust","python"]}},"required":["description","language"]}"# });
    v.push(ToolDescriptor { name: r#"evolve"#, description: r#"Run one cycle of the evolution engine."#, args_json_schema: r#"{}"# });
    v.push(ToolDescriptor { name: r#"evolve_full"#, description: r#"Run the complete auto-evolve pipeline."#, args_json_schema: r#"{}"# });
    v.push(ToolDescriptor { name: r#"read"#, description: r#"Read a file from the filesystem."#, args_json_schema: r#"{"type":"object","properties":{"path":{"type":"string"}},"required":["path"]}"# });
    v.push(ToolDescriptor { name: r#"write"#, description: r#"Write content to a file."#, args_json_schema: r#"{"type":"object","properties":{"path":{"type":"string"},"content":{"type":"string"}},"required":["path","content"]}"# });
    v.push(ToolDescriptor { name: r#"search"#, description: r#"Search source code for a pattern."#, args_json_schema: r#"{"type":"object","properties":{"pattern":{"type":"string"}},"required":["pattern"]}"# });
    v.push(ToolDescriptor { name: r#"ls"#, description: r#"List directory contents."#, args_json_schema: r#"{"type":"object","properties":{"path":{"type":"string"}},"required":["path"]}"# });
    v.push(ToolDescriptor { name: r#"bash"#, description: r#"Execute a shell command."#, args_json_schema: r#"{"type":"object","properties":{"command":{"type":"string"}},"required":["command"]}"# });
    assert(v@.map_values(|d: ToolDescriptor| descriptor_view(d)) =~= tool_catalog());
    v
}

/// The prompt lines describing the tools `ts`, one block per tool.
pub open spec fn tool_lines(ts: Seq<(Seq<char>, Seq<char>, Seq<char>)>) -> Seq<char>
    decreases ts.len(),
{
    if ts.len() == 0 {
        Seq::empty()
    } else {
        let t = ts.last();
        tool_lines(ts.drop_last()) + "- **"@ + t.0 + "**: "@ + t.1 + "  \n  Args JSON schema: `"@ + t.2
            + "`\n\n"@
    }
}

/// The reply format the agent must follow.
pub open spec fn reply_format() -> Seq<char> {
    "You MUST respond in this exact format:\n\nThought: <your reasoning>\nAction: <tool_name>\nAction Input: <JSON args>\n\n... or when you have the final answer:\n\nThought: <your reasoning>\nAnswer: <final answer>\n"@
}

/// The system-prompt section that lists the tools and the reply format.
pub fn tool_descriptions_prompt() -> (s: String)
    ensures
        s@ == "You have access to the following tools:\n\n"@ + tool_lines(tool_catalog()) + reply_format(),
{
    let tools = all_tools();
    let ghost cat = tool_catalog();
    let mut out = String::new();
    push_str(&mut out, "You have access to the following tools:\n\n");
    let mut i: usize = 0;
    while i < tools.len()
        invariant
            i <= tools.len(),
            tools@.map_values(|d: ToolDescriptor| descriptor_view(d)) == cat,
            out@ == "You have access to the following tools:\n\n"@ + tool_lines(cat.take(i as int)),
        decreases tools.len() - i,
    {
        let t = tools[i];
        proof {
            assert(cat.take(i + 1).drop_last() =~= cat.take(i as int));
            assert(cat[i as int] == descriptor_view(tools@[i as int]));
        }
        push_str(&mut out, "- **");
        push_str(&mut out, t.name);
        push_str(&mut out, "**: ");
        push_str(&mut out, t.description);
        push_str(&mut out, "  \n  Args JSON schema: `");
        push_str(&mut out, t.args_json_schema);
        push_str(&mut out, "`\n\n");
        proof {
            let v = descriptor_view(t);
            assert(out@ =~= "You have access to the following tools:\n\n"@ + tool_lines(cat.take(i as int)) + "- **"@ + v.0 + "**: "@ + v.1 + "  \n  Args JSON schema: `"@ + v.2 + "`\n\n"@);
        }
        i = i + 1;
    }
    assert(cat.take(tools.len() as int) =~= cat);
    push_str(
        &mut out,
        "You MUST respond in this exact format:\n\nThought: <your reasoning>\nAction: <tool_name>\nAction Input: <JSON args>\n\n... or when you have the final answer:\n\nThought: <your reasoning>\nAnswer: <final answer>\n",
    );
    out
}

} // verus!
