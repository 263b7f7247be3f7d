//! Building the system prompt: the assistant's identity, its runtime and workspace,
//! and the tools it can call.
use crate::clock::signed_epoch_millis;
use crate::tools::base::ToolDefinition;
use vstd::prelude::*;
use vstd::string::{StrSliceExecFns, StringExecFns};

verus! {

/// The rules that close the identity section.
pub open spec fn rules_text() -> Seq<char> {
    "\n\n## Important Rules\n\n1. **ALWAYS use tools** - When you need to perform an action (write files, execute commands, etc.), you MUST call the appropriate tool. Do NOT just say you'll do it or pretend to do it.\n\n2. **Be helpful and accurate** - When using tools, briefly explain what you're doing.\n\n3. **Tool Parameters** - When calling tools, provide the actual values for parameters, not the parameter descriptions.\n\n4. **Response style** - Be concise and professional. Do not use emojis.\n\n5. **When to use tools** - Use a tool only when an action is needed, such as writing a file. Answer simple questions directly, without tools: to \"What is 2+2?\" just answer \"4\"."@
}

/// The identity section for the given time, operating system, architecture and workspace.
pub open spec fn identity_text(now: Seq<char>, os: Seq<char>, arch: Seq<char>, workspace: Seq<char>) -> Seq<char> {
    "# TakoBull 🐙\n\nYou are TakoBull, a helpful AI assistant.\n\n## Current Time\n"@ + now
        + "\n\n## Runtime\n"@ + os + " "@ + arch + ", Rust\n\n## Workspace\nYour workspace is at: "@
        + workspace + rules_text()
}

/// One line per tool: ``- `name` - description``.
pub open spec fn tool_lines(defs: Seq<ToolDefinition>) -> Seq<char>
    decreases defs.len(),
{
    if defs.len() == 0 {
        Seq::empty()
    } else {
        tool_lines(defs.drop_last()) + "- `"@ + defs.last().function.name@ + "` - "@
            + defs.last().function.description@ + "\n"@
    }
}

/// The tools section: empty without tools, else a heading, the instruction to use
/// them, and one line per tool.
pub open spec fn tools_text(defs: Seq<ToolDefinition>) -> Seq<char> {
    if defs.len() == 0 {
        Seq::empty()
    } else {
        "## Available Tools\n\n"@
            + "**CRITICAL**: You MUST use tools to perform actions. Do NOT pretend to execute commands or write files.\n\n"@
            + "You have access to the following tools:\n\n"@ + tool_lines(defs)
    }
}

/// The tool lines of a run of definitions are those of its parts, in order: every
/// definition gets its line, whatever comes before or after it.
pub proof fn law_tool_lines_concat(a: Seq<ToolDefinition>, b: Seq<ToolDefinition>)
    ensures
        tool_lines(a + b) == tool_lines(a) + tool_lines(b),
    decreases b.len(),
{
    if b.len() == 0 {
        assert(a + b =~= a);
        assert(tool_lines(a) + tool_lines(b) =~= tool_lines(a));
    } else {
        law_tool_lines_concat(a, b.drop_last());
        assert((a + b).drop_last() =~= a + b.drop_last());
        assert((a + b).last() == b.last());
        let line = "- `"@ + b.last().function.name@ + "` - "@ + b.last().function.description@ + "\n"@;
        assert(tool_lines(a + b) =~= tool_lines(a + b.drop_last()) + line);
        assert(tool_lines(b) =~= tool_lines(b.drop_last()) + line);
        assert(tool_lines(a) + tool_lines(b) =~= tool_lines(a) + tool_lines(b.drop_last()) + line);
    }
}

/// One definition gives the line ``- `name` - description`` and a newline.
pub proof fn law_tool_line_single(d: ToolDefinition)
    ensures
        tool_lines(seq![d]) == "- `"@ + d.function.name@ + "` - "@ + d.function.description@ + "\n"@,
{
    assert(seq![d].drop_last() =~= Seq::<ToolDefinition>::empty());
    assert(seq![d].last() == d);
    assert(tool_lines(Seq::<ToolDefinition>::empty()) =~= Seq::<char>::empty());
    reveal_with_fuel(tool_lines, 2);
    assert(Seq::<char>::empty() + ("- `"@ + d.function.name@ + "` - "@ + d.function.description@ + "\n"@)
        =~= "- `"@ + d.function.name@ + "` - "@ + d.function.description@ + "\n"@);
}

/// The tools section of definitions ends with the lines of all of them, in order, and
/// is empty exactly when there are none.
pub proof fn law_tools_section_lists_all(defs: Seq<ToolDefinition>, i: int)
    requires
        0 <= i < defs.len(),
    ensures
        tools_text(defs) == tools_text(seq![defs[0]]) + tool_lines(defs.skip(1)),
        tool_lines(defs) == tool_lines(defs.take(i)) + "- `"@ + defs[i].function.name@ + "` - "@
            + defs[i].function.description@ + "\n"@ + tool_lines(defs.skip(i + 1)),
        tools_text(defs).len() > 0,
        tools_text(Seq::<ToolDefinition>::empty()).len() == 0,
{
    assert(defs =~= defs.take(i) + (seq![defs[i]] + defs.skip(i + 1)));
    law_tool_lines_concat(defs.take(i), seq![defs[i]] + defs.skip(i + 1));
    law_tool_lines_concat(seq![defs[i]], defs.skip(i + 1));
    law_tool_line_single(defs[i]);
    assert(defs =~= seq![defs[0]] + defs.skip(1));
    law_tool_lines_concat(seq![defs[0]], defs.skip(1));
    let head = "## Available Tools\n\n"@
        + "**CRITICAL**: You MUST use tools to perform actions. Do NOT pretend to execute commands or write files.\n\n"@
        + "You have access to the following tools:\n\n"@;
    assert(tools_text(defs) == head + tool_lines(defs));
    assert(tools_text(seq![defs[0]]) == head + tool_lines(seq![defs[0]]));
    assert(tools_text(defs) =~= tools_text(seq![defs[0]]) + tool_lines(defs.skip(1)));
    reveal_strlit("## Available Tools\n\n");
    assert(tools_text(defs).len() >= head.len());
}

/// The system prompt: the identity section, then, when there are tools, a blank line
/// and the tools section.
pub open spec fn prompt_text(now: Seq<char>, os: Seq<char>, arch: Seq<char>, workspace: Seq<char>, defs: Seq<ToolDefinition>) -> Seq<char> {
    if tools_text(defs).len() == 0 {
        identity_text(now, os, arch, workspace)
    } else {
        identity_text(now, os, arch, workspace) + "\n\n"@ + tools_text(defs)
    }
}

/// The pattern of the current time in the prompt: `2024-05-01 14:30 (Wednesday)`.
pub open spec fn time_pattern() -> Seq<char> {
    "%Y-%m-%d %H:%M (%A)"@
}

/// Calls `DateTime::from_timestamp_millis` on `millis` (milliseconds since the Unix
/// epoch), moves the time into the machine's zone with `with_timezone(&Local)`, and
/// writes it out with `format` and `pattern`; `None` where chrono has no date for
/// `millis`. The text depends on the time zone, so nothing is stated of it. chrono's
/// writer fails, and `to_string` then panics, on a pattern it cannot read; `requires`
/// admits only the prompt's pattern.
#[verifier::external_body]
fn local_time_text(millis: i64, pattern: &str) -> (r: Option<String>)
    requires
        pattern@ == time_pattern(),
{
    match chrono::DateTime::from_timestamp_millis(millis) {
        Some(t) => Some(t.with_timezone(&chrono::Local).format(pattern).to_string()),
        None => None,
    }
}

/// Builds system prompts for one workspace.
#[derive(Debug, Clone)]
pub struct ContextBuilder {
    pub workspace: String,
}

impl ContextBuilder {
    /// A builder for `workspace`.
    pub fn new(workspace: &str) -> (r: Self)
        ensures
            r.workspace@ == workspace@,
    {
        ContextBuilder { workspace: workspace.to_owned() }
    }

    /// The tools section for `definitions`.
    pub fn build_tools_section(&self, definitions: &Vec<ToolDefinition>) -> (r: String)
        ensures
            r@ == tools_text(definitions@),
    {
        if definitions.len() == 0 {
            return String::new();
        }
        let mut section = "## Available Tools\n\n".to_owned();
        section.append(
            "**CRITICAL**: You MUST use tools to perform actions. Do NOT pretend to execute commands or write files.\n\n",
        );
        section.append("You have access to the following tools:\n\n");
        let ghost head = section@;
        let mut i: usize = 0;
        while i < definitions.len()
            invariant
                i <= definitions.len(),
                section@ == head + tool_lines(definitions@.take(i as int)),
            decreases definitions.len() - i,
        {
            assert(definitions@.take(i + 1).drop_last() =~= definitions@.take(i as int));
            section.append("- `");
            section.append(definitions[i].function.name.as_str());
            section.append("` - ");
            section.append(definitions[i].function.description.as_str());
            section.append("\n");
            i = i + 1;
        }
        assert(definitions@.take(definitions.len() as int) =~= definitions@);
        section
    }

    /// The identity section for the given time, operating system and architecture.
    pub fn get_identity(&self, now: &str, os: &str, arch: &str) -> (r: String)
        ensures
            r@ == identity_text(now@, os@, arch@, self.workspace@),
    {
        let mut r = "# TakoBull 🐙\n\nYou are TakoBull, a helpful AI assistant.\n\n## Current Time\n".to_owned();
        r.append(now);
        r.append("\n\n## Runtime\n");
        r.append(os);
        r.append(" ");
        r.append(arch);
        r.append(", Rust\n\n## Workspace\nYour workspace is at: ");
        r.append(self.workspace.as_str());
        r.append(
            "\n\n## Important Rules\n\n1. **ALWAYS use tools** - When you need to perform an action (write files, execute commands, etc.), you MUST call the appropriate tool. Do NOT just say you'll do it or pretend to do it.\n\n2. **Be helpful and accurate** - When using tools, briefly explain what you're doing.\n\n3. **Tool Parameters** - When calling tools, provide the actual values for parameters, not the parameter descriptions.\n\n4. **Response style** - Be concise and professional. Do not use emojis.\n\n5. **When to use tools** - Use a tool only when an action is needed, such as writing a file. Answer simple questions directly, without tools: to \"What is 2+2?\" just answer \"4\".",
        );
        r
    }

    /// The system prompt for the given time, operating system, architecture and tools.
    pub fn build_system_prompt_at(&self, now: &str, os: &str, arch: &str, definitions: &Vec<ToolDefinition>) -> (r: String)
        ensures
            r@ == prompt_text(now@, os@, arch@, self.workspace@, definitions@),
    {
        let mut prompt = self.get_identity(now, os, arch);
        let section = self.build_tools_section(definitions);
        if section.as_str().unicode_len() != 0 {
            prompt.append("\n\n");
            prompt.append(section.as_str());
        }
        prompt
    }

    /// The system prompt at the current local time, for the given operating system,
    /// architecture and tools; `None` when the clock gives no time to show (it lies
    /// beyond what an `i64` of milliseconds or chrono can date).
    pub fn build_system_prompt(&self, os: &str, arch: &str, definitions: &Vec<ToolDefinition>) -> (r: Option<String>)
        ensures
            r matches Some(p) ==> exists|now: Seq<char>| p@ == prompt_text(now, os@, arch@, self.workspace@, definitions@),
    {
        let millis = match signed_epoch_millis() {
            Some(ms) => ms,
            None => return None,
        };
        let pattern = "%Y-%m-%d %H:%M (%A)";
        proof {
            reveal_strlit("%Y-%m-%d %H:%M (%A)");
        }
        let now = match local_time_text(millis, pattern) {
            Some(t) => t,
            None => return None,
        };
        let r = self.build_system_prompt_at(now.as_str(), os, arch, definitions);
        assert(r@ == prompt_text(now@, os@, arch@, self.workspace@, definitions@));
        Some(r)
    }
}

} // verus!
