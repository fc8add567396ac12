//! The arguments of a tool call, and the request a call makes: which tool,
//! with which values, or the error text the call gets.
use vstd::prelude::*;

use crate::db::models::{permission_of_text, Permission};
use crate::text::{cat, chars_eq, chars_of, eq_lit};

verus! {

/// The arguments of a tool call: its string-valued and its
/// unsigned-integer-valued members (each name at most once, as in a JSON
/// object).
#[derive(Debug, Clone)]
pub struct ToolArgs {
    pub strings: Vec<(String, String)>,
    pub numbers: Vec<(String, u64)>,
}

pub struct ToolArgsView {
    pub strings: Seq<(Seq<char>, Seq<char>)>,
    pub numbers: Seq<(Seq<char>, u64)>,
}

impl View for ToolArgs {
    type V = ToolArgsView;

    open spec fn view(&self) -> ToolArgsView {
        ToolArgsView {
            strings: self.strings@.map_values(|e: (String, String)| (e.0@, e.1@)),
            numbers: self.numbers@.map_values(|e: (String, u64)| (e.0@, e.1)),
        }
    }
}

/// The string value of a member, if the arguments have one by that name.
pub open spec fn arg_str(s: Seq<(Seq<char>, Seq<char>)>, key: Seq<char>) -> Option<Seq<char>>
    decreases s.len(),
{
    if s.len() == 0 {
        None
    } else if s[0].0 == key {
        Some(s[0].1)
    } else {
        arg_str(s.drop_first(), key)
    }
}

/// The number value of a member, if the arguments have one by that name.
pub open spec fn arg_u64(s: Seq<(Seq<char>, u64)>, key: Seq<char>) -> Option<u64>
    decreases s.len(),
{
    if s.len() == 0 {
        None
    } else if s[0].0 == key {
        Some(s[0].1)
    } else {
        arg_u64(s.drop_first(), key)
    }
}

impl ToolArgs {
    /// The string value of a member (`args[key].as_str()`).
    pub fn get_str(&self, key: &str) -> (r: Option<String>)
        ensures
            match r {
                Some(v) => arg_str(self@.strings, key@) == Some(v@),
                None => arg_str(self@.strings, key@) is None,
            },
    {
        let ghost s = self@.strings;
        let k = chars_of(key);
        let mut i: usize = 0;
        assert(s.skip(0) =~= s);
        while i < self.strings.len()
            invariant
                s == self@.strings,
                k@ == key@,
                i <= s.len(),
                arg_str(s, key@) == arg_str(s.skip(i as int), key@),
            decreases s.len() - i,
        {
            assert(s.skip(i as int).drop_first() =~= s.skip(i + 1));
            assert(s.skip(i as int)[0] == s[i as int]);
            let n = chars_of(self.strings[i].0.as_str());
            if chars_eq(n.as_slice(), k.as_slice()) {
                return Some(self.strings[i].1.clone());
            }
            i = i + 1;
        }
        None
    }

    /// The unsigned value of a member (`args[key].as_u64()`).
    pub fn get_u64(&self, key: &str) -> (r: Option<u64>)
        ensures
            r == arg_u64(self@.numbers, key@),
    {
        let ghost s = self@.numbers;
        let k = chars_of(key);
        let mut i: usize = 0;
        assert(s.skip(0) =~= s);
        while i < self.numbers.len()
            invariant
                s == self@.numbers,
                k@ == key@,
                i <= s.len(),
                arg_u64(s, key@) == arg_u64(s.skip(i as int), key@),
            decreases s.len() - i,
        {
            assert(s.skip(i as int).drop_first() =~= s.skip(i + 1));
            assert(s.skip(i as int)[0] == s[i as int]);
            let n = chars_of(self.numbers[i].0.as_str());
            if chars_eq(n.as_slice(), k.as_slice()) {
                return Some(self.numbers[i].1);
            }
            i = i + 1;
        }
        None
    }
}

/// A required string argument, or the error `Missing <key>`.
pub open spec fn required(a: ToolArgsView, key: Seq<char>) -> Result<Seq<char>, Seq<char>> {
    match arg_str(a.strings, key) {
        Some(v) => Ok(v),
        None => Err("Missing "@ + key),
    }
}

fn need(args: &ToolArgs, key: &str) -> (r: Result<String, String>)
    ensures
        match r {
            Ok(v) => required(args@, key@) == Ok::<Seq<char>, Seq<char>>(v@),
            Err(e) => required(args@, key@) == Err::<Seq<char>, Seq<char>>(e@),
        },
{
    match args.get_str(key) {
        Some(v) => Ok(v),
        None => Err(cat("Missing ", key)),
    }
}

/// What a tool call asks for.
#[derive(Debug, Clone)]
pub enum ToolRequest {
    ListCalendars,
    GetCalendar { calendar_id: String },
    CreateCalendar { name: String, description: String, color: String, timezone: String },
    DeleteCalendar { calendar_id: String },
    CreateEvent {
        calendar_id: String,
        title: String,
        start: String,
        end: String,
        description: Option<String>,
        location: Option<String>,
    },
    GetEvent { calendar_id: String, event_uid: String },
    UpdateEvent {
        calendar_id: String,
        event_uid: String,
        title: String,
        start: String,
        end: String,
        description: Option<String>,
        location: Option<String>,
    },
    DeleteEvent { calendar_id: String, event_uid: String },
    QueryEvents { calendar_id: String, start: Option<String>, end: Option<String>, limit: u64 },
    ShareCalendar { calendar_id: String, username: String, permission: Permission },
    UnshareCalendar { calendar_id: String, username: String },
    ListSharedCalendars,
    /// Simple mode: add an event to the user's calendar.
    AddEvent {
        title: String,
        start: String,
        end: String,
        timezone: Option<String>,
        description: Option<String>,
        location: Option<String>,
    },
    /// Simple mode: delete an event of the user's calendar.
    DeleteOwnEvent { event_uid: String },
    /// Simple mode: list the events of the user's calendar.
    ListEvents { start: Option<String>, end: Option<String>, limit: u64 },
}

pub enum ToolRequestView {
    ListCalendars,
    GetCalendar { calendar_id: Seq<char> },
    CreateCalendar {
        name: Seq<char>,
        description: Seq<char>,
        color: Seq<char>,
        timezone: Seq<char>,
    },
    DeleteCalendar { calendar_id: Seq<char> },
    CreateEvent {
        calendar_id: Seq<char>,
        title: Seq<char>,
        start: Seq<char>,
        end: Seq<char>,
        description: Option<Seq<char>>,
        location: Option<Seq<char>>,
    },
    GetEvent { calendar_id: Seq<char>, event_uid: Seq<char> },
    UpdateEvent {
        calendar_id: Seq<char>,
        event_uid: Seq<char>,
        title: Seq<char>,
        start: Seq<char>,
        end: Seq<char>,
        description: Option<Seq<char>>,
        location: Option<Seq<char>>,
    },
    DeleteEvent { calendar_id: Seq<char>, event_uid: Seq<char> },
    QueryEvents {
        calendar_id: Seq<char>,
        start: Option<Seq<char>>,
        end: Option<Seq<char>>,
        limit: u64,
    },
    ShareCalendar { calendar_id: Seq<char>, username: Seq<char>, permission: Permission },
    UnshareCalendar { calendar_id: Seq<char>, username: Seq<char> },
    ListSharedCalendars,
    AddEvent {
        title: Seq<char>,
        start: Seq<char>,
        end: Seq<char>,
        timezone: Option<Seq<char>>,
        description: Option<Seq<char>>,
        location: Option<Seq<char>>,
    },
    DeleteOwnEvent { event_uid: Seq<char> },
    ListEvents { start: Option<Seq<char>>, end: Option<Seq<char>>, limit: u64 },
}

pub open spec fn ov(o: Option<String>) -> Option<Seq<char>> {
    match o {
        Some(s) => Some(s@),
        None => None,
    }
}

impl View for ToolRequest {
    type V = ToolRequestView;

    open spec fn view(&self) -> ToolRequestView {
        match self {
            ToolRequest::ListCalendars => ToolRequestView::ListCalendars,
            ToolRequest::GetCalendar { calendar_id } => ToolRequestView::GetCalendar {
                calendar_id: calendar_id@,
            },
            ToolRequest::CreateCalendar { name, description, color, timezone } => {
                ToolRequestView::CreateCalendar {
                    name: name@,
                    description: description@,
                    color: color@,
                    timezone: timezone@,
                }
            },
            ToolRequest::DeleteCalendar { calendar_id } => ToolRequestView::DeleteCalendar {
                calendar_id: calendar_id@,
            },
            ToolRequest::CreateEvent { calendar_id, title, start, end, description, location } => {
                ToolRequestView::CreateEvent {
                    calendar_id: calendar_id@,
                    title: title@,
                    start: start@,
                    end: end@,
                    description: ov(*description),
                    location: ov(*location),
                }
            },
            ToolRequest::GetEvent { calendar_id, event_uid } => ToolRequestView::GetEvent {
                calendar_id: calendar_id@,
                event_uid: event_uid@,
            },
            ToolRequest::UpdateEvent {
                calendar_id,
                event_uid,
                title,
                start,
                end,
                description,
                location,
            } => ToolRequestView::UpdateEvent {
                calendar_id: calendar_id@,
                event_uid: event_uid@,
                title: title@,
                start: start@,
                end: end@,
                description: ov(*description),
                location: ov(*location),
            },
            ToolRequest::DeleteEvent { calendar_id, event_uid } => ToolRequestView::DeleteEvent {
                calendar_id: calendar_id@,
                event_uid: event_uid@,
            },
            ToolRequest::QueryEvents { calendar_id, start, end, limit } => {
                ToolRequestView::QueryEvents {
                    calendar_id: calendar_id@,
                    start: ov(*start),
                    end: ov(*end),
                    limit: *limit,
                }
            },
            ToolRequest::ShareCalendar { calendar_id, username, permission } => {
                ToolRequestView::ShareCalendar {
                    calendar_id: calendar_id@,
                    username: username@,
                    permission: *permission,
                }
            },
            ToolRequest::UnshareCalendar { calendar_id, username } => {
                ToolRequestView::UnshareCalendar { calendar_id: calendar_id@, username: username@ }
            },
            ToolRequest::ListSharedCalendars => ToolRequestView::ListSharedCalendars,
            ToolRequest::AddEvent { title, start, end, timezone, description, location } => {
                ToolRequestView::AddEvent {
                    title: title@,
                    start: start@,
                    end: end@,
                    timezone: ov(*timezone),
                    description: ov(*description),
                    location: ov(*location),
                }
            },
            ToolRequest::DeleteOwnEvent { event_uid } => ToolRequestView::DeleteOwnEvent {
                event_uid: event_uid@,
            },
            ToolRequest::ListEvents { start, end, limit } => ToolRequestView::ListEvents {
                start: ov(*start),
                end: ov(*end),
                limit: *limit,
            },
        }
    }
}


/// An optional argument, or a default.
pub open spec fn or_default(o: Option<Seq<char>>, d: Seq<char>) -> Seq<char> {
    match o {
        Some(v) => v,
        None => d,
    }
}

/// The `limit` argument, 50 when absent.
pub open spec fn limit_of(a: ToolArgsView) -> u64 {
    match arg_u64(a.numbers, "limit"@) {
        Some(n) => n,
        None => 50,
    }
}

/// The error of an unknown tool.
pub open spec fn unknown_tool(name: Seq<char>) -> Seq<char> {
    "Unknown tool: "@ + name
}

/// The request a full-mode tool call makes: the tool by name, its
/// required arguments checked in order (the first missing one is the
/// error), the optional ones with their defaults.
pub open spec fn spec_full_request(name: Seq<char>, a: ToolArgsView) -> Result<ToolRequestView, Seq<char>> {
    let s = a.strings;
    if name == "list_calendars"@ {
        Ok(ToolRequestView::ListCalendars)
    } else if name == "get_calendar"@ {
        match required(a, "calendar_id"@) {
            Ok(c) => Ok(ToolRequestView::GetCalendar { calendar_id: c }),
            Err(e) => Err(e),
        }
    } else if name == "create_calendar"@ {
        match required(a, "name"@) {
            Ok(n) => Ok(
                ToolRequestView::CreateCalendar {
                    name: n,
                    description: or_default(arg_str(s, "description"@), ""@),
                    color: or_default(arg_str(s, "color"@), "#0E61B9"@),
                    timezone: or_default(arg_str(s, "timezone"@), "UTC"@),
                },
            ),
            Err(e) => Err(e),
        }
    } else if name == "delete_calendar"@ {
        match required(a, "calendar_id"@) {
            Ok(c) => Ok(ToolRequestView::DeleteCalendar { calendar_id: c }),
            Err(e) => Err(e),
        }
    } else if name == "create_event"@ {
        match required(a, "calendar_id"@) {
            Err(e) => Err(e),
            Ok(c) => match required(a, "title"@) {
                Err(e) => Err(e),
                Ok(t) => match required(a, "start"@) {
                    Err(e) => Err(e),
                    Ok(st) => match required(a, "end"@) {
                        Err(e) => Err(e),
                        Ok(en) => Ok(
                            ToolRequestView::CreateEvent {
                                calendar_id: c,
                                title: t,
                                start: st,
                                end: en,
                                description: arg_str(s, "description"@),
                                location: arg_str(s, "location"@),
                            },
                        ),
                    },
                },
            },
        }
    } else if name == "get_event"@ || name == "delete_event"@ {
        match required(a, "calendar_id"@) {
            Err(e) => Err(e),
            Ok(c) => match required(a, "event_uid"@) {
                Err(e) => Err(e),
                Ok(u) => if name == "get_event"@ {
                    Ok(ToolRequestView::GetEvent { calendar_id: c, event_uid: u })
                } else {
                    Ok(ToolRequestView::DeleteEvent { calendar_id: c, event_uid: u })
                },
            },
        }
    } else if name == "update_event"@ {
        match required(a, "calendar_id"@) {
            Err(e) => Err(e),
            Ok(c) => match required(a, "event_uid"@) {
                Err(e) => Err(e),
                Ok(u) => match required(a, "title"@) {
                    Err(e) => Err(e),
                    Ok(t) => match required(a, "start"@) {
                        Err(e) => Err(e),
                        Ok(st) => match required(a, "end"@) {
                            Err(e) => Err(e),
                            Ok(en) => Ok(
                                ToolRequestView::UpdateEvent {
                                    calendar_id: c,
                                    event_uid: u,
                                    title: t,
                                    start: st,
                                    end: en,
                                    description: arg_str(s, "description"@),
                                    location: arg_str(s, "location"@),
                                },
                            ),
                        },
                    },
                },
            },
        }
    } else if name == "query_events"@ {
        match required(a, "calendar_id"@) {
            Err(e) => Err(e),
            Ok(c) => Ok(
                ToolRequestView::QueryEvents {
                    calendar_id: c,
                    start: arg_str(s, "start"@),
                    end: arg_str(s, "end"@),
                    limit: limit_of(a),
                },
            ),
        }
    } else if name == "share_calendar"@ {
        match required(a, "calendar_id"@) {
            Err(e) => Err(e),
            Ok(c) => match required(a, "username"@) {
                Err(e) => Err(e),
                Ok(u) => match required(a, "permission"@) {
                    Err(e) => Err(e),
                    Ok(p) => match permission_of_text(p) {
                        Some(perm) => Ok(
                            ToolRequestView::ShareCalendar {
                                calendar_id: c,
                                username: u,
                                permission: perm,
                            },
                        ),
                        None => Err("Invalid permission value"@),
                    },
                },
            },
        }
    } else if name == "unshare_calendar"@ {
        match required(a, "calendar_id"@) {
            Err(e) => Err(e),
            Ok(c) => match required(a, "username"@) {
                Err(e) => Err(e),
                Ok(u) => Ok(ToolRequestView::UnshareCalendar { calendar_id: c, username: u }),
            },
        }
    } else if name == "list_shared_calendars"@ {
        Ok(ToolRequestView::ListSharedCalendars)
    } else {
        Err(unknown_tool(name))
    }
}

/// The request a simple-mode tool call makes.
pub open spec fn spec_simple_request(name: Seq<char>, a: ToolArgsView) -> Result<ToolRequestView, Seq<char>> {
    let s = a.strings;
    if name == "add_event"@ {
        match required(a, "title"@) {
            Err(e) => Err(e),
            Ok(t) => match required(a, "start"@) {
                Err(e) => Err(e),
                Ok(st) => match required(a, "end"@) {
                    Err(e) => Err(e),
                    Ok(en) => Ok(
                        ToolRequestView::AddEvent {
                            title: t,
                            start: st,
                            end: en,
                            timezone: arg_str(s, "timezone"@),
                            description: arg_str(s, "description"@),
                            location: arg_str(s, "location"@),
                        },
                    ),
                },
            },
        }
    } else if name == "delete_event"@ {
        match required(a, "event_uid"@) {
            Err(e) => Err(e),
            Ok(u) => Ok(ToolRequestView::DeleteOwnEvent { event_uid: u }),
        }
    } else if name == "list_events"@ {
        Ok(
            ToolRequestView::ListEvents {
                start: arg_str(s, "start"@),
                end: arg_str(s, "end"@),
                limit: limit_of(a),
            },
        )
    } else {
        Err(unknown_tool(name))
    }
}

/// The request of a tool call in the given mode.
pub open spec fn spec_tool_request(tool_mode: Seq<char>, name: Seq<char>, a: ToolArgsView) -> Result<
    ToolRequestView,
    Seq<char>,
> {
    if tool_mode == "simple"@ {
        spec_simple_request(name, a)
    } else {
        spec_full_request(name, a)
    }
}

/// `key` is given as `v`, or is absent and `v` is the default `d`.
pub open spec fn given_or(s: Seq<(Seq<char>, Seq<char>)>, key: Seq<char>, v: Seq<char>, d: Seq<char>) -> bool {
    arg_str(s, key) == Some(v) || (arg_str(s, key) is None && v == d)
}

/// Each field of a request is the argument of the same name: required ones
/// as given, optional ones as given or absent, defaults only where the
/// argument is absent (`limit` 50; a new calendar's description empty,
/// color `#0E61B9`, time zone `UTC`), and a share's permission the one its
/// text names.
pub open spec fn fields_from_args(r: ToolRequestView, a: ToolArgsView) -> bool {
    let s = a.strings;
    let limit_ok = |limit: u64|
        arg_u64(a.numbers, "limit"@) == Some(limit) || (arg_u64(a.numbers, "limit"@) is None && limit
            == 50);
    match r {
        ToolRequestView::ListCalendars => true,
        ToolRequestView::ListSharedCalendars => true,
        ToolRequestView::GetCalendar { calendar_id } => arg_str(s, "calendar_id"@) == Some(calendar_id),
        ToolRequestView::DeleteCalendar { calendar_id } => arg_str(s, "calendar_id"@) == Some(calendar_id),
        ToolRequestView::CreateCalendar { name, description, color, timezone } => {
            &&& arg_str(s, "name"@) == Some(name)
            &&& given_or(s, "description"@, description, ""@)
            &&& given_or(s, "color"@, color, "#0E61B9"@)
            &&& given_or(s, "timezone"@, timezone, "UTC"@)
        },
        ToolRequestView::CreateEvent { calendar_id, title, start, end, description, location } => {
            &&& arg_str(s, "calendar_id"@) == Some(calendar_id)
            &&& arg_str(s, "title"@) == Some(title)
            &&& arg_str(s, "start"@) == Some(start)
            &&& arg_str(s, "end"@) == Some(end)
            &&& arg_str(s, "description"@) == description
            &&& arg_str(s, "location"@) == location
        },
        ToolRequestView::GetEvent { calendar_id, event_uid } => {
            &&& arg_str(s, "calendar_id"@) == Some(calendar_id)
            &&& arg_str(s, "event_uid"@) == Some(event_uid)
        },
        ToolRequestView::DeleteEvent { calendar_id, event_uid } => {
            &&& arg_str(s, "calendar_id"@) == Some(calendar_id)
            &&& arg_str(s, "event_uid"@) == Some(event_uid)
        },
        ToolRequestView::UpdateEvent {
            calendar_id,
            event_uid,
            title,
            start,
            end,
            description,
            location,
        } => {
            &&& arg_str(s, "calendar_id"@) == Some(calendar_id)
            &&& arg_str(s, "event_uid"@) == Some(event_uid)
            &&& arg_str(s, "title"@) == Some(title)
            &&& arg_str(s, "start"@) == Some(start)
            &&& arg_str(s, "end"@) == Some(end)
            &&& arg_str(s, "description"@) == description
            &&& arg_str(s, "location"@) == location
        },
        ToolRequestView::QueryEvents { calendar_id, start, end, limit } => {
            &&& arg_str(s, "calendar_id"@) == Some(calendar_id)
            &&& arg_str(s, "start"@) == start
            &&& arg_str(s, "end"@) == end
            &&& limit_ok(limit)
        },
        ToolRequestView::ShareCalendar { calendar_id, username, permission } => {
            &&& arg_str(s, "calendar_id"@) == Some(calendar_id)
            &&& arg_str(s, "username"@) == Some(username)
            &&& arg_str(s, "permission"@) == Some(
                match permission {
                    Permission::Read => "read"@,
                    Permission::ReadWrite => "read-write"@,
                },
            )
        },
        ToolRequestView::UnshareCalendar { calendar_id, username } => {
            &&& arg_str(s, "calendar_id"@) == Some(calendar_id)
            &&& arg_str(s, "username"@) == Some(username)
        },
        ToolRequestView::AddEvent { title, start, end, timezone, description, location } => {
            &&& arg_str(s, "title"@) == Some(title)
            &&& arg_str(s, "start"@) == Some(start)
            &&& arg_str(s, "end"@) == Some(end)
            &&& arg_str(s, "timezone"@) == timezone
            &&& arg_str(s, "description"@) == description
            &&& arg_str(s, "location"@) == location
        },
        ToolRequestView::DeleteOwnEvent { event_uid } => arg_str(s, "event_uid"@) == Some(event_uid),
        ToolRequestView::ListEvents { start, end, limit } => {
            &&& arg_str(s, "start"@) == start
            &&& arg_str(s, "end"@) == end
            &&& limit_ok(limit)
        },
    }
}

/// Whatever tool a call names, in either mode, the request it makes takes
/// each of its fields from the argument of the same name (so, for
/// instance, an event's start is the `start` argument and its end the
/// `end` argument).
pub proof fn lemma_request_fields_from_args(tool_mode: Seq<char>, name: Seq<char>, a: ToolArgsView)
    ensures
        spec_tool_request(tool_mode, name, a) matches Ok(r) ==> fields_from_args(r, a),
{
}

/// The view of a parse result.
pub open spec fn request_view(r: Result<ToolRequest, String>) -> Result<ToolRequestView, Seq<char>> {
    match r {
        Ok(t) => Ok(t@),
        Err(e) => Err(e@),
    }
}

fn opt_or(o: Option<String>, d: &str) -> (r: String)
    ensures
        r@ == or_default(ov(o), d@),
{
    match o {
        Some(v) => v,
        None => String::from_str(d),
    }
}

fn full_request(name: &[char], name_s: &str, args: &ToolArgs) -> (r: Result<ToolRequest, String>)
    requires
        name@ == name_s@,
    ensures
        request_view(r) == spec_full_request(name_s@, args@),
{
    if eq_lit(name, "list_calendars") {
        Ok(ToolRequest::ListCalendars)
    } else if eq_lit(name, "get_calendar") {
        let c = match need(args, "calendar_id") { Ok(v) => v, Err(e) => return Err(e) };
        Ok(ToolRequest::GetCalendar { calendar_id: c })
    } else if eq_lit(name, "create_calendar") {
        let n = match need(args, "name") { Ok(v) => v, Err(e) => return Err(e) };
        Ok(
            ToolRequest::CreateCalendar {
                name: n,
                description: opt_or(args.get_str("description"), ""),
                color: opt_or(args.get_str("color"), "#0E61B9"),
                timezone: opt_or(args.get_str("timezone"), "UTC"),
            },
        )
    } else if eq_lit(name, "delete_calendar") {
        let c = match need(args, "calendar_id") { Ok(v) => v, Err(e) => return Err(e) };
        Ok(ToolRequest::DeleteCalendar { calendar_id: c })
    } else if eq_lit(name, "create_event") {
        let c = match need(args, "calendar_id") { Ok(v) => v, Err(e) => return Err(e) };
        let t = match need(args, "title") { Ok(v) => v, Err(e) => return Err(e) };
        let st = match need(args, "start") { Ok(v) => v, Err(e) => return Err(e) };
        let en = match need(args, "end") { Ok(v) => v, Err(e) => return Err(e) };
        Ok(
            ToolRequest::CreateEvent {
                calendar_id: c,
                title: t,
                start: st,
                end: en,
                description: args.get_str("description"),
                location: args.get_str("location"),
            },
        )
    } else if eq_lit(name, "get_event") || eq_lit(name, "delete_event") {
        let c = match need(args, "calendar_id") { Ok(v) => v, Err(e) => return Err(e) };
        let u = match need(args, "event_uid") { Ok(v) => v, Err(e) => return Err(e) };
        if eq_lit(name, "get_event") {
            Ok(ToolRequest::GetEvent { calendar_id: c, event_uid: u })
        } else {
            Ok(ToolRequest::DeleteEvent { calendar_id: c, event_uid: u })
        }
    } else if eq_lit(name, "update_event") {
        let c = match need(args, "calendar_id") { Ok(v) => v, Err(e) => return Err(e) };
        let u = match need(args, "event_uid") { Ok(v) => v, Err(e) => return Err(e) };
        let t = match need(args, "title") { Ok(v) => v, Err(e) => return Err(e) };
        let st = match need(args, "start") { Ok(v) => v, Err(e) => return Err(e) };
        let en = match need(args, "end") { Ok(v) => v, Err(e) => return Err(e) };
        Ok(
            ToolRequest::UpdateEvent {
                calendar_id: c,
                event_uid: u,
                title: t,
                start: st,
                end: en,
                description: args.get_str("description"),
                location: args.get_str("location"),
            },
        )
    } else if eq_lit(name, "query_events") {
        let c = match need(args, "calendar_id") { Ok(v) => v, Err(e) => return Err(e) };
        let limit = match args.get_u64("limit") { Some(n) => n, None => 50 };
        Ok(
            ToolRequest::QueryEvents {
                calendar_id: c,
                start: args.get_str("start"),
                end: args.get_str("end"),
                limit,
            },
        )
    } else if eq_lit(name, "share_calendar") {
        let c = match need(args, "calendar_id") { Ok(v) => v, Err(e) => return Err(e) };
        let u = match need(args, "username") { Ok(v) => v, Err(e) => return Err(e) };
        let p = match need(args, "permission") { Ok(v) => v, Err(e) => return Err(e) };
        match Permission::from_str_value(p.as_str()) {
            Some(perm) => Ok(ToolRequest::ShareCalendar { calendar_id: c, username: u, permission: perm }),
            None => Err(String::from_str("Invalid permission value")),
        }
    } else if eq_lit(name, "unshare_calendar") {
        let c = match need(args, "calendar_id") { Ok(v) => v, Err(e) => return Err(e) };
        let u = match need(args, "username") { Ok(v) => v, Err(e) => return Err(e) };
        Ok(ToolRequest::UnshareCalendar { calendar_id: c, username: u })
    } else if eq_lit(name, "list_shared_calendars") {
        Ok(ToolRequest::ListSharedCalendars)
    } else {
        Err(cat("Unknown tool: ", name_s))
    }
}

fn simple_request(name: &[char], name_s: &str, args: &ToolArgs) -> (r: Result<ToolRequest, String>)
    requires
        name@ == name_s@,
    ensures
        request_view(r) == spec_simple_request(name_s@, args@),
{
    if eq_lit(name, "add_event") {
        let t = match need(args, "title") { Ok(v) => v, Err(e) => return Err(e) };
        let st = match need(args, "start") { Ok(v) => v, Err(e) => return Err(e) };
        let en = match need(args, "end") { Ok(v) => v, Err(e) => return Err(e) };
        Ok(
            ToolRequest::AddEvent {
                title: t,
                start: st,
                end: en,
                timezone: args.get_str("timezone"),
                description: args.get_str("description"),
                location: args.get_str("location"),
            },
        )
    } else if eq_lit(name, "delete_event") {
        let u = match need(args, "event_uid") { Ok(v) => v, Err(e) => return Err(e) };
        Ok(ToolRequest::DeleteOwnEvent { event_uid: u })
    } else if eq_lit(name, "list_events") {
        let limit = match args.get_u64("limit") { Some(n) => n, None => 50 };
        Ok(ToolRequest::ListEvents { start: args.get_str("start"), end: args.get_str("end"), limit })
    } else {
        Err(cat("Unknown tool: ", name_s))
    }
}

/// Dispatch a tools/call request: the request it makes in the given mode,
/// or the error text the tool call answers with.
pub fn tool_request(tool_mode: &str, tool_name: &str, args: &ToolArgs) -> (r: Result<ToolRequest, String>)
    ensures
        request_view(r) == spec_tool_request(tool_mode@, tool_name@, args@),
{
    let m = chars_of(tool_mode);
    let n = chars_of(tool_name);
    if eq_lit(m.as_slice(), "simple") {
        simple_request(n.as_slice(), tool_name, args)
    } else {
        full_request(n.as_slice(), tool_name, args)
    }
}

} // verus!
