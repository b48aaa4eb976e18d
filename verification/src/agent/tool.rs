//! Tool results and the built-in tools' text.
use vstd::prelude::*;
use crate::text::{dec, join, join_with, push_dec, push_str};

verus! {

/// The result of a single tool execution.
#[derive(Debug, Clone)]
pub struct ToolResult {
    pub success: bool,
    pub output: String,
    pub tool_name: String,
}

impl ToolResult {
    pub fn ok(tool_name: &str, output: &str) -> (r: Self)
        ensures
            r.success,
            r.tool_name@ == tool_name@,
            r.output@ == output@,
    {
        ToolResult { success: true, tool_name: tool_name.to_owned(), output: output.to_owned() }
    }

    pub fn err(tool_name: &str, msg: &str) -> (r: Self)
        ensures
            !r.success,
            r.tool_name@ == tool_name@,
            r.output@ == msg@,
    {
        ToolResult { success: false, tool_name: tool_name.to_owned(), output: msg.to_owned() }
    }

    /// The failed result for a tool that no registered tool answers to, listing the
    /// available names.
    pub fn unknown_tool(name: &str, available: &Vec<String>) -> (r: Self)
        ensures
            !r.success,
            r.tool_name@ == name@,
            r.output@ == "Unknown tool: '"@ + name@ + "'. Available: "@ + join_with(
                available@.map_values(|x: String| x@),
                ", "@,
            ),
    {
        let mut msg = String::new();
        push_str(&mut msg, "Unknown tool: '");
        push_str(&mut msg, name);
        push_str(&mut msg, "'. Available: ");
        let list = join(available, ", ");
        push_str(&mut msg, list.as_str());
        ToolResult::err(name, msg.as_str())
    }
}

/// Think tool: lets the model reason without calling anything outside.
#[derive(Debug, Clone, Copy)]
pub struct ThinkTool;

impl ThinkTool {
    pub fn name(&self) -> (n: &'static str)
        ensures
            n@ == "think"@,
    {
        "think"
    }

    pub fn description(&self) -> (d: &'static str)
        ensures
            d@ == "Use this for internal reasoning. The output is not shown to the user."@,
    {
        "Use this for internal reasoning. The output is not shown to the user."
    }

    /// Records a thought of `thought_bytes` UTF-8 bytes.
    pub fn record(&self, thought_bytes: usize) -> (r: ToolResult)
        ensures
            r.success,
            r.tool_name@ == "think"@,
            r.output@ == "Thought recorded ("@ + dec(thought_bytes as nat) + " chars)"@,
    {
        let mut out = String::new();
        push_str(&mut out, "Thought recorded (");
        push_dec(&mut out, thought_bytes as u64);
        push_str(&mut out, " chars)");
        ToolResult::ok("think", out.as_str())
    }
}

/// One tool's entry in the registry prompt.
pub open spec fn tool_entry(name: Seq<char>, description: Seq<char>, args: Seq<char>) -> Seq<char> {
    "- **"@ + name + "**: "@ + description + "  \n  Args: `"@ + args + "`\n\n"@
}

/// The entries of the tools `ts` (name, description, rendered arguments), in order.
pub open spec fn tool_entries(ts: Seq<(Seq<char>, Seq<char>, Seq<char>)>) -> Seq<char>
    decreases ts.len(),
{
    if ts.len() == 0 {
        Seq::empty()
    } else {
        tool_entries(ts.drop_last()) + tool_entry(ts.last().0, ts.last().1, ts.last().2)
    }
}

/// The reply format the registry prompt ends with.
pub open spec fn reply_rules() -> Seq<char> {
    "You MUST respond in this exact format:\n\nThought: <your reasoning>\nAction: <tool_name>\nAction Input: <JSON args>\n\n... or when you have the final answer:\n\nThought: <your reasoning>\nAnswer: <final answer>\n"@
}

/// The system-prompt section for the registered tools, given each tool's name,
/// description and pretty-printed argument schema.
pub fn registry_prompt(tools: &Vec<(String, String, String)>) -> (s: String)
    ensures
        s@ == "You have access to the following tools:\n\n"@ + tool_entries(
            tools@.map_values(|t: (String, String, String)| (t.0@, t.1@, t.2@)),
        ) + reply_rules(),
{
    let ghost tv = tools@.map_values(|t: (String, String, String)| (t.0@, t.1@, t.2@));
    let mut s = String::new();
    push_str(&mut s, "You have access to the following tools:\n\n");
    let mut i: usize = 0;
    while i < tools.len()
        invariant
            i <= tools.len(),
            tv == tools@.map_values(|t: (String, String, String)| (t.0@, t.1@, t.2@)),
            s@ == "You have access to the following tools:\n\n"@ + tool_entries(tv.take(i as int)),
        decreases tools.len() - i,
    {
        assert(tv.take(i + 1).drop_last() =~= tv.take(i as int));
        assert(tv.take(i + 1).last() == tv[i as int]);
        push_str(&mut s, "- **");
        push_str(&mut s, tools[i].0.as_str());
        push_str(&mut s, "**: ");
        push_str(&mut s, tools[i].1.as_str());
        push_str(&mut s, "  \n  Args: `");
        push_str(&mut s, tools[i].2.as_str());
        push_str(&mut s, "`\n\n");
        assert(s@ =~= "You have access to the following tools:\n\n"@ + tool_entries(tv.take(i + 1)));
        i = i + 1;
    }
    assert(tv.take(i as int) =~= tv);
    push_str(&mut s, "You MUST respond in this exact format:\n\nThought: <your reasoning>\nAction: <tool_name>\nAction Input: <JSON args>\n\n... or when you have the final answer:\n\nThought: <your reasoning>\nAnswer: <final answer>\n");
    s
}

} // verus!
