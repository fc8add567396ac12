//! The event tools: create, get, update, delete and query events.
use vstd::prelude::*;

use super::{tool, tool_view, ToolDef, ToolDefView, tool_views};

verus! {

/// The input schema of `create_event`.
pub const CREATE_EVENT_SCHEMA: &'static str = "{\"type\":\"object\",\"properties\":{\"calendar_id\":{\"type\":\"string\",\"description\":\"The target calendar ID\"},\"title\":{\"type\":\"string\",\"description\":\"Event title/summary\"},\"start\":{\"type\":\"string\",\"description\":\"Start time (ISO 8601 or iCal format, e.g. 20260301T090000Z)\"},\"end\":{\"type\":\"string\",\"description\":\"End time (ISO 8601 or iCal format)\"},\"description\":{\"type\":\"string\",\"description\":\"Event description\"},\"location\":{\"type\":\"string\",\"description\":\"Event location\"}},\"required\":[\"calendar_id\",\"title\",\"start\",\"end\"],\"additionalProperties\":false}";

/// The input schema of `get_event`.
pub const GET_EVENT_SCHEMA: &'static str = "{\"type\":\"object\",\"properties\":{\"calendar_id\":{\"type\":\"string\",\"description\":\"The calendar ID\"},\"event_uid\":{\"type\":\"string\",\"description\":\"The event UID\"}},\"required\":[\"calendar_id\",\"event_uid\"],\"additionalProperties\":false}";

/// The input schema of `update_event`.
pub const UPDATE_EVENT_SCHEMA: &'static str = "{\"type\":\"object\",\"properties\":{\"calendar_id\":{\"type\":\"string\",\"description\":\"The calendar ID\"},\"event_uid\":{\"type\":\"string\",\"description\":\"The event UID to update\"},\"title\":{\"type\":\"string\",\"description\":\"New event title\"},\"start\":{\"type\":\"string\",\"description\":\"New start time\"},\"end\":{\"type\":\"string\",\"description\":\"New end time\"},\"description\":{\"type\":\"string\",\"description\":\"New description\"},\"location\":{\"type\":\"string\",\"description\":\"New location\"}},\"required\":[\"calendar_id\",\"event_uid\",\"title\",\"start\",\"end\"],\"additionalProperties\":false}";

/// The input schema of `delete_event`.
pub const DELETE_EVENT_SCHEMA: &'static str = "{\"type\":\"object\",\"properties\":{\"calendar_id\":{\"type\":\"string\",\"description\":\"The calendar ID\"},\"event_uid\":{\"type\":\"string\",\"description\":\"The event UID to delete\"}},\"required\":[\"calendar_id\",\"event_uid\"],\"additionalProperties\":false}";

/// The input schema of `query_events`.
pub const QUERY_EVENTS_SCHEMA: &'static str = "{\"type\":\"object\",\"properties\":{\"calendar_id\":{\"type\":\"string\",\"description\":\"The calendar ID\"},\"start\":{\"type\":\"string\",\"description\":\"Range start (iCal format, e.g. 20260301T000000Z)\"},\"end\":{\"type\":\"string\",\"description\":\"Range end (iCal format)\"},\"limit\":{\"type\":\"integer\",\"description\":\"Max events to return (default 50)\",\"minimum\":1,\"maximum\":500}},\"required\":[\"calendar_id\"],\"additionalProperties\":false}";

/// The tool definitions of this group, in order.
pub open spec fn spec_tool_defs() -> Seq<ToolDefView> {
    seq![
        tool_view("create_event"@, "Create a new calendar event"@, CREATE_EVENT_SCHEMA@),
        tool_view("get_event"@, "Get a specific event by its UID"@, GET_EVENT_SCHEMA@),
        tool_view("update_event"@, "Update an existing event (replaces the entire event)"@, UPDATE_EVENT_SCHEMA@),
        tool_view("delete_event"@, "Delete a calendar event"@, DELETE_EVENT_SCHEMA@),
        tool_view("query_events"@, "Query events in a calendar, optionally filtered by time range"@, QUERY_EVENTS_SCHEMA@),
    ]
}

pub fn tool_defs() -> (v: Vec<ToolDef>)
    ensures
        tool_views(v@) == spec_tool_defs(),
{
    let v = vec![
        tool("create_event", "Create a new calendar event", CREATE_EVENT_SCHEMA),
        tool("get_event", "Get a specific event by its UID", GET_EVENT_SCHEMA),
        tool("update_event", "Update an existing event (replaces the entire event)", UPDATE_EVENT_SCHEMA),
        tool("delete_event", "Delete a calendar event", DELETE_EVENT_SCHEMA),
        tool("query_events", "Query events in a calendar, optionally filtered by time range", QUERY_EVENTS_SCHEMA),
    ];
    assert(tool_views(v@) =~= spec_tool_defs());
    v
}

} // verus!
