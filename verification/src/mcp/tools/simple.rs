//! The terse tools of simple mode (for local LLMs): add, delete and list
//! events in the user's own calendar.
use vstd::prelude::*;

use super::{tool, tool_view, ToolDef, ToolDefView, tool_views};

verus! {

/// The input schema of `add_event`.
pub const SIMPLE_ADD_EVENT_SCHEMA: &'static str = "{\"type\":\"object\",\"properties\":{\"title\":{\"type\":\"string\",\"description\":\"Event title\"},\"start\":{\"type\":\"string\",\"description\":\"Local start time in iCal format, e.g. 20260301T090000 (no Z suffix when timezone is provided)\"},\"end\":{\"type\":\"string\",\"description\":\"Local end time in iCal format, e.g. 20260301T100000\"},\"timezone\":{\"type\":\"string\",\"description\":\"IANA timezone name, e.g. America/Los_Angeles. Required for local time; omit only for explicit UTC (append Z to start/end).\"},\"description\":{\"type\":\"string\"},\"location\":{\"type\":\"string\"}},\"required\":[\"title\",\"start\",\"end\"],\"additionalProperties\":false}";

/// The input schema of `delete_event`.
pub const SIMPLE_DELETE_EVENT_SCHEMA: &'static str = "{\"type\":\"object\",\"properties\":{\"event_uid\":{\"type\":\"string\",\"description\":\"Event UID to delete\"}},\"required\":[\"event_uid\"],\"additionalProperties\":false}";

/// The input schema of `list_events`.
pub const SIMPLE_LIST_EVENTS_SCHEMA: &'static str = "{\"type\":\"object\",\"properties\":{\"start\":{\"type\":\"string\",\"description\":\"Range start, e.g. 20260301T000000Z\"},\"end\":{\"type\":\"string\",\"description\":\"Range end, e.g. 20260331T235959Z\"},\"limit\":{\"type\":\"integer\",\"description\":\"Max results (default 50)\",\"minimum\":1,\"maximum\":500}},\"additionalProperties\":false}";

/// The tool definitions of this group, in order.
pub open spec fn spec_tool_defs() -> Seq<ToolDefView> {
    seq![
        tool_view("add_event"@, "Add a calendar event."@, SIMPLE_ADD_EVENT_SCHEMA@),
        tool_view("delete_event"@, "Delete a calendar event by its UID."@, SIMPLE_DELETE_EVENT_SCHEMA@),
        tool_view("list_events"@, "List upcoming calendar events. Optionally filter by time range."@, SIMPLE_LIST_EVENTS_SCHEMA@),
    ]
}

/// Simplified tool definitions for local LLMs — 3 terse tools.
/// Calendar management is hidden; all tools auto-resolve to the user's calendar.
pub fn tool_defs() -> (v: Vec<ToolDef>)
    ensures
        tool_views(v@) == spec_tool_defs(),
{
    let v = vec![
        tool("add_event", "Add a calendar event.", SIMPLE_ADD_EVENT_SCHEMA),
        tool("delete_event", "Delete a calendar event by its UID.", SIMPLE_DELETE_EVENT_SCHEMA),
        tool("list_events", "List upcoming calendar events. Optionally filter by time range.", SIMPLE_LIST_EVENTS_SCHEMA),
    ];
    assert(tool_views(v@) =~= spec_tool_defs());
    v
}

} // verus!
