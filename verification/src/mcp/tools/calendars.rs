//! The calendar tools: list, get, create and delete calendars.
use vstd::prelude::*;

use super::{tool, tool_view, ToolDef, ToolDefView, tool_views};

verus! {

/// The input schema of `list_calendars`.
pub const LIST_CALENDARS_SCHEMA: &'static str = "{\"type\":\"object\",\"properties\":{},\"additionalProperties\":false}";

/// The input schema of `get_calendar`.
pub const GET_CALENDAR_SCHEMA: &'static str = "{\"type\":\"object\",\"properties\":{\"calendar_id\":{\"type\":\"string\",\"description\":\"The calendar ID\"}},\"required\":[\"calendar_id\"],\"additionalProperties\":false}";

/// The input schema of `create_calendar`.
pub const CREATE_CALENDAR_SCHEMA: &'static str = "{\"type\":\"object\",\"properties\":{\"name\":{\"type\":\"string\",\"description\":\"Calendar display name\"},\"description\":{\"type\":\"string\",\"description\":\"Calendar description\"},\"color\":{\"type\":\"string\",\"description\":\"Calendar color (hex, e.g. #FF0000)\"},\"timezone\":{\"type\":\"string\",\"description\":\"Calendar timezone (e.g. America/New_York)\"}},\"required\":[\"name\"],\"additionalProperties\":false}";

/// The input schema of `delete_calendar`.
pub const DELETE_CALENDAR_SCHEMA: &'static str = "{\"type\":\"object\",\"properties\":{\"calendar_id\":{\"type\":\"string\",\"description\":\"The calendar ID to delete\"}},\"required\":[\"calendar_id\"],\"additionalProperties\":false}";

/// The tool definitions of this group, in order.
pub open spec fn spec_tool_defs() -> Seq<ToolDefView> {
    seq![
        tool_view("list_calendars"@, "List all calendars accessible to the authenticated user (owned + shared)"@, LIST_CALENDARS_SCHEMA@),
        tool_view("get_calendar"@, "Get details about a specific calendar"@, GET_CALENDAR_SCHEMA@),
        tool_view("create_calendar"@, "Create a new calendar"@, CREATE_CALENDAR_SCHEMA@),
        tool_view("delete_calendar"@, "Delete a calendar and all its events"@, DELETE_CALENDAR_SCHEMA@),
    ]
}

pub fn tool_defs() -> (v: Vec<ToolDef>)
    ensures
        tool_views(v@) == spec_tool_defs(),
{
    let v = vec![
        tool("list_calendars", "List all calendars accessible to the authenticated user (owned + shared)", LIST_CALENDARS_SCHEMA),
        tool("get_calendar", "Get details about a specific calendar", GET_CALENDAR_SCHEMA),
        tool("create_calendar", "Create a new calendar", CREATE_CALENDAR_SCHEMA),
        tool("delete_calendar", "Delete a calendar and all its events", DELETE_CALENDAR_SCHEMA),
    ];
    assert(tool_views(v@) =~= spec_tool_defs());
    v
}

} // verus!
