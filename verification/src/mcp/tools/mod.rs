//! The MCP tool catalogue, and the reading of a tool call's arguments.
pub mod args;
pub mod calendars;
pub mod events;
pub mod sharing;
pub mod simple;

use vstd::prelude::*;

use crate::text::{chars_of, eq_lit};

verus! {

/// A tool definition for the MCP tools/list response. The input schema is
/// JSON text.
#[derive(Debug, Clone)]
pub struct ToolDef {
    pub name: String,
    pub description: String,
    pub input_schema: String,
}

/// A tool definition as text.
pub struct ToolDefView {
    pub name: Seq<char>,
    pub description: Seq<char>,
    pub input_schema: Seq<char>,
}

impl View for ToolDef {
    type V = ToolDefView;

    open spec fn view(&self) -> ToolDefView {
        ToolDefView {
            name: self.name@,
            description: self.description@,
            input_schema: self.input_schema@,
        }
    }
}

/// The views of tool definitions.
pub open spec fn tool_views(v: Seq<ToolDef>) -> Seq<ToolDefView> {
    v.map_values(|t: ToolDef| t@)
}

/// A tool definition from its parts.
pub open spec fn tool_view(name: Seq<char>, description: Seq<char>, input_schema: Seq<char>) -> ToolDefView {
    ToolDefView { name, description, input_schema }
}

/// A tool definition from its texts.
pub fn tool(name: &str, description: &str, input_schema: &str) -> (t: ToolDef)
    ensures
        t@ == tool_view(name@, description@, input_schema@),
{
    ToolDef {
        name: String::from_str(name),
        description: String::from_str(description),
        input_schema: String::from_str(input_schema),
    }
}

/// The tools of a mode: the terse ones in `simple` mode, otherwise the
/// calendar, event and sharing tools, in that order.
pub open spec fn spec_all_tools(tool_mode: Seq<char>) -> Seq<ToolDefView> {
    if tool_mode == "simple"@ {
        simple::spec_tool_defs()
    } else {
        calendars::spec_tool_defs() + events::spec_tool_defs() + sharing::spec_tool_defs()
    }
}

/// Get all registered MCP tool definitions for the given mode.
pub fn all_tools(tool_mode: &str) -> (v: Vec<ToolDef>)
    ensures
        tool_views(v@) == spec_all_tools(tool_mode@),
{
    let m = chars_of(tool_mode);
    if eq_lit(m.as_slice(), "simple") {
        return simple::tool_defs();
    }
    let mut tools = calendars::tool_defs();
    let mut e = events::tool_defs();
    let mut s = sharing::tool_defs();
    let ghost a = tools@;
    let ghost b = e@;
    let ghost c = s@;
    tools.append(&mut e);
    tools.append(&mut s);
    assert(tools@ =~= a + b + c);
    assert(tool_views(tools@) =~= tool_views(a) + tool_views(b) + tool_views(c));
    tools
}

/// Simple mode lists three tools (`add_event`, `delete_event`,
/// `list_events`); every other mode lists twelve.
pub proof fn lemma_tool_counts(tool_mode: Seq<char>)
    ensures
        tool_mode == "simple"@ ==> spec_all_tools(tool_mode).len() == 3
            && spec_all_tools(tool_mode)[0].name == "add_event"@
            && spec_all_tools(tool_mode)[1].name == "delete_event"@
            && spec_all_tools(tool_mode)[2].name == "list_events"@,
        tool_mode != "simple"@ ==> spec_all_tools(tool_mode).len() == 12,
{
}

} // verus!
