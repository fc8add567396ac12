//! The sharing tools: share and unshare calendars, list shared ones.
use vstd::prelude::*;

use super::{tool, tool_view, ToolDef, ToolDefView, tool_views};

verus! {

/// The input schema of `share_calendar`.
pub const SHARE_CALENDAR_SCHEMA: &'static str = "{\"type\":\"object\",\"properties\":{\"calendar_id\":{\"type\":\"string\",\"description\":\"The calendar ID to share\"},\"username\":{\"type\":\"string\",\"description\":\"Username of the user to share with\"},\"permission\":{\"type\":\"string\",\"enum\":[\"read\",\"read-write\"],\"description\":\"Access level to grant\"}},\"required\":[\"calendar_id\",\"username\",\"permission\"],\"additionalProperties\":false}";

/// The input schema of `unshare_calendar`.
pub const UNSHARE_CALENDAR_SCHEMA: &'static str = "{\"type\":\"object\",\"properties\":{\"calendar_id\":{\"type\":\"string\",\"description\":\"The calendar ID\"},\"username\":{\"type\":\"string\",\"description\":\"Username to revoke access from\"}},\"required\":[\"calendar_id\",\"username\"],\"additionalProperties\":false}";

/// The input schema of `list_shared_calendars`.
pub const LIST_SHARED_CALENDARS_SCHEMA: &'static str = "{\"type\":\"object\",\"properties\":{},\"additionalProperties\":false}";

/// The tool definitions of this group, in order.
pub open spec fn spec_tool_defs() -> Seq<ToolDefView> {
    seq![
        tool_view("share_calendar"@, "Share a calendar with another user"@, SHARE_CALENDAR_SCHEMA@),
        tool_view("unshare_calendar"@, "Revoke a user's access to a shared calendar"@, UNSHARE_CALENDAR_SCHEMA@),
        tool_view("list_shared_calendars"@, "List calendars shared with the authenticated user"@, LIST_SHARED_CALENDARS_SCHEMA@),
    ]
}

pub fn tool_defs() -> (v: Vec<ToolDef>)
    ensures
        tool_views(v@) == spec_tool_defs(),
{
    let v = vec![
        tool("share_calendar", "Share a calendar with another user", SHARE_CALENDAR_SCHEMA),
        tool("unshare_calendar", "Revoke a user's access to a shared calendar", UNSHARE_CALENDAR_SCHEMA),
        tool("list_shared_calendars", "List calendars shared with the authenticated user", LIST_SHARED_CALENDARS_SCHEMA),
    ];
    assert(tool_views(v@) =~= spec_tool_defs());
    v
}

} // verus!
