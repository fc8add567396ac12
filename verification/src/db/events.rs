//! Calendar objects: the fields stored beside the raw iCalendar data, new
//! ETags and change tokens, the query of a calendar-multiget, and the
//! errors of the object store.
use vstd::prelude::*;

use super::models::CalendarObject;
use crate::error::AppError;
use crate::ical::parser::IcalFields;
use super::calendars::new_sync_token;
use crate::caldav::xml::properties::{ensure_sync_token_uri, spec_sync_token_uri};
use crate::ids::{is_lower_hex, is_uuid_text, uuid_v4_text, uuid_v7_text};
use crate::text::{cat, cat3};

verus! {

/// Extracted iCalendar fields stored alongside the raw `ical_data`.
pub struct ObjectFields<'a> {
    pub component_type: &'a str,
    pub dtstart: Option<&'a str>,
    pub dtend: Option<&'a str>,
    pub summary: Option<&'a str>,
}

/// The text of an optional string slice.
pub open spec fn opt_slice(o: Option<&str>) -> Option<Seq<char>> {
    match o {
        Some(s) => Some(s@),
        None => None,
    }
}

/// The text of an optional string.
pub open spec fn opt_string(o: Option<String>) -> Option<Seq<char>> {
    match o {
        Some(s) => Some(s@),
        None => None,
    }
}

fn opt_as_str<'a>(o: &'a Option<String>) -> (r: Option<&'a str>)
    ensures
        opt_slice(r) == opt_string(*o),
{
    match o {
        Some(s) => Some(s.as_str()),
        None => None,
    }
}

/// The stored fields of an object: those extracted from its data.
pub fn object_fields<'a>(fields: &'a IcalFields) -> (f: ObjectFields<'a>)
    ensures
        f.component_type@ == fields.component_type@,
        opt_slice(f.dtstart) == opt_string(fields.dtstart),
        opt_slice(f.dtend) == opt_string(fields.dtend),
        opt_slice(f.summary) == opt_string(fields.summary),
{
    ObjectFields {
        component_type: fields.component_type.as_str(),
        dtstart: opt_as_str(&fields.dtstart),
        dtend: opt_as_str(&fields.dtend),
        summary: opt_as_str(&fields.summary),
    }
}

/// Generate a new ETag value: a random UUID in double quotes.
pub fn new_etag() -> (e: String)
    ensures
        exists|u: Seq<char>| is_uuid_text(u) && e@ == "\""@ + u + "\""@,
{
    let u = uuid_v4_text();
    let e = cat3("\"", u.as_str(), "\"");
    assert(is_uuid_text(u@) && e@ == "\""@ + u@ + "\""@);
    e
}

/// The tokens of one change to a calendar's objects: the calendar's new
/// sync token (`sync-` and a time-ordered UUID), and the same token in the
/// URI form (`data:,` before it) that the change is logged under. Clients
/// are handed the calendar's token in that URI form, so the token a client
/// presents is the one its last seen change was logged under, and a
/// sync-collection REPORT finds its place in the change log.
pub fn change_tokens() -> (r: (String, String))
    ensures
        exists|u: Seq<char>| is_uuid_text(u) && r.0@ == "sync-"@ + u,
        r.1@ == spec_sync_token_uri(r.0@),
        r.1@ == "data:,"@ + r.0@,
{
    let t = new_sync_token();
    let uri = ensure_sync_token_uri(t.as_str());
    proof {
        reveal_strlit("sync-");
        let u = choose|u: Seq<char>| is_uuid_text(u) && t@ == "sync-"@ + u;
        assert(!t@.contains(':')) by {
            if t@.contains(':') {
                let k = choose|k: int| 0 <= k < t@.len() && t@[k] == ':';
                if k >= 5 {
                    assert(t@[k] == u[k - 5]);
                    assert(is_lower_hex(u[k - 5]) || u[k - 5] == '-');
                } else {
                    assert(t@[k] == "sync-"@[k]);
                }
            }
        }
    }
    (t, uri)
}

/// `n` placeholders joined by `, `.
pub open spec fn placeholders(n: nat) -> Seq<char>
    decreases n,
{
    if n == 0 {
        seq![]
    } else if n == 1 {
        "?"@
    } else {
        placeholders((n - 1) as nat) + ", ?"@
    }
}

/// The query of the objects with some of `n` UIDs in a calendar.
pub open spec fn spec_uids_query(n: nat) -> Seq<char> {
    "SELECT * FROM calendar_objects WHERE calendar_id = ? AND uid IN ("@ + placeholders(n)
        + ") ORDER BY dtstart"@
}

/// Build the query with an IN clause for `n` UIDs (the first parameter is
/// the calendar's id).
pub fn objects_by_uids_query(n: usize) -> (q: String)
    requires
        n > 0,
    ensures
        q@ == spec_uids_query(n as nat),
{
    let mut p = String::from_str("?");
    let mut i: usize = 1;
    while i < n
        invariant
            1 <= i <= n,
            p@ == placeholders(i as nat),
        decreases n - i,
    {
        p.append(", ?");
        i = i + 1;
    }
    cat3("SELECT * FROM calendar_objects WHERE calendar_id = ? AND uid IN (", p.as_str(), ") ORDER BY dtstart")
}

/// The error of deleting an object that is not in the calendar.
pub fn object_not_found(uid: &str) -> (e: AppError)
    ensures
        e matches AppError::NotFound(m) && m@ == "Object with UID '"@ + uid@ + "' not found in calendar"@,
{
    AppError::NotFound(cat3("Object with UID '", uid, "' not found in calendar"))
}

/// The kind of change a write logs: `created` for a new object, `modified`
/// otherwise.
pub fn change_kind(is_new: bool) -> (k: &'static str)
    ensures
        k@ == (if is_new {
            "created"@
        } else {
            "modified"@
        }),
{
    if is_new {
        "created"
    } else {
        "modified"
    }
}

/// The objects a listing with a limit returns: the first `limit` of them,
/// in order, or all of them when there are no more than `limit`.
pub fn first_objects(objects: Vec<CalendarObject>, limit: u64) -> (r: Vec<CalendarObject>)
    ensures
        r@ == (if limit < objects@.len() {
            objects@.take(limit as int)
        } else {
            objects@
        }),
{
    let mut r = objects;
    if (r.len() as u64) > limit {
        r.truncate(limit as usize);
    }
    r
}

} // verus!
