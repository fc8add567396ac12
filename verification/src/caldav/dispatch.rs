//! Which handler a CalDAV request goes to, by path kind and method, and the
//! access check on calendars.
use vstd::prelude::*;

use crate::db::models::Calendar;
use crate::text::{cat3, chars_of, eq_lit};

verus! {

/// What a request at the server root `/` asks for.
#[derive(Clone, Copy, Debug, PartialEq, Eq, Structural)]
pub enum RootAction {
    Options,
    Propfind,
    /// 301 to `/caldav/`.
    Redirect,
}

/// What a request at a discovery path (`/caldav/`, `/principals/`, the
/// email home) or a calendar home asks for.
#[derive(Clone, Copy, Debug, PartialEq, Eq, Structural)]
pub enum DiscoveryAction {
    Options,
    Propfind,
    /// 405.
    NotAllowed,
}

/// What a request at a calendar collection asks for.
#[derive(Clone, Copy, Debug, PartialEq, Eq, Structural)]
pub enum CollectionAction {
    Options,
    Propfind,
    Report,
    Proppatch,
    Mkcalendar,
    Delete,
    /// 405.
    NotAllowed,
}

/// What a request at a calendar object asks for.
#[derive(Clone, Copy, Debug, PartialEq, Eq, Structural)]
pub enum ObjectAction {
    Options,
    Get,
    Put,
    Delete,
    /// 405.
    NotAllowed,
}

pub open spec fn spec_root_action(m: Seq<char>) -> RootAction {
    if m == "OPTIONS"@ {
        RootAction::Options
    } else if m == "PROPFIND"@ {
        RootAction::Propfind
    } else {
        RootAction::Redirect
    }
}

pub open spec fn spec_discovery_action(m: Seq<char>) -> DiscoveryAction {
    if m == "OPTIONS"@ {
        DiscoveryAction::Options
    } else if m == "PROPFIND"@ {
        DiscoveryAction::Propfind
    } else {
        DiscoveryAction::NotAllowed
    }
}

pub open spec fn spec_collection_action(m: Seq<char>) -> CollectionAction {
    if m == "OPTIONS"@ {
        CollectionAction::Options
    } else if m == "PROPFIND"@ {
        CollectionAction::Propfind
    } else if m == "REPORT"@ {
        CollectionAction::Report
    } else if m == "PROPPATCH"@ {
        CollectionAction::Proppatch
    } else if m == "MKCALENDAR"@ {
        CollectionAction::Mkcalendar
    } else if m == "DELETE"@ {
        CollectionAction::Delete
    } else {
        CollectionAction::NotAllowed
    }
}

pub open spec fn spec_object_action(m: Seq<char>) -> ObjectAction {
    if m == "OPTIONS"@ {
        ObjectAction::Options
    } else if m == "GET"@ {
        ObjectAction::Get
    } else if m == "PUT"@ {
        ObjectAction::Put
    } else if m == "DELETE"@ {
        ObjectAction::Delete
    } else {
        ObjectAction::NotAllowed
    }
}

/// The methods each kind of path answers: at the server root OPTIONS and
/// PROPFIND, anything else redirects; at discovery paths and homes OPTIONS
/// and PROPFIND, anything else is refused; at a calendar collection
/// OPTIONS, PROPFIND, REPORT, PROPPATCH, MKCALENDAR and DELETE; at a
/// calendar object OPTIONS, GET, PUT and DELETE. Each action comes from
/// exactly its own method.
pub proof fn lemma_methods_route(m: Seq<char>)
    ensures
        (spec_root_action(m) == RootAction::Options) == (m == "OPTIONS"@),
        (spec_root_action(m) == RootAction::Propfind) == (m == "PROPFIND"@),
        (spec_root_action(m) == RootAction::Redirect) == (m != "OPTIONS"@ && m != "PROPFIND"@),
        (spec_discovery_action(m) == DiscoveryAction::Options) == (m == "OPTIONS"@),
        (spec_discovery_action(m) == DiscoveryAction::Propfind) == (m == "PROPFIND"@),
        (spec_discovery_action(m) == DiscoveryAction::NotAllowed) == (m != "OPTIONS"@ && m
            != "PROPFIND"@),
        (spec_collection_action(m) == CollectionAction::Options) == (m == "OPTIONS"@),
        (spec_collection_action(m) == CollectionAction::Propfind) == (m == "PROPFIND"@),
        (spec_collection_action(m) == CollectionAction::Report) == (m == "REPORT"@),
        (spec_collection_action(m) == CollectionAction::Proppatch) == (m == "PROPPATCH"@),
        (spec_collection_action(m) == CollectionAction::Mkcalendar) == (m == "MKCALENDAR"@),
        (spec_collection_action(m) == CollectionAction::Delete) == (m == "DELETE"@),
        (spec_collection_action(m) == CollectionAction::NotAllowed) == (m != "OPTIONS"@ && m
            != "PROPFIND"@ && m != "REPORT"@ && m != "PROPPATCH"@ && m != "MKCALENDAR"@ && m
            != "DELETE"@),
        (spec_object_action(m) == ObjectAction::Options) == (m == "OPTIONS"@),
        (spec_object_action(m) == ObjectAction::Get) == (m == "GET"@),
        (spec_object_action(m) == ObjectAction::Put) == (m == "PUT"@),
        (spec_object_action(m) == ObjectAction::Delete) == (m == "DELETE"@),
        (spec_object_action(m) == ObjectAction::NotAllowed) == (m != "OPTIONS"@ && m != "GET"@ && m
            != "PUT"@ && m != "DELETE"@),
{
    reveal_strlit("OPTIONS");
    reveal_strlit("PROPFIND");
    reveal_strlit("REPORT");
    reveal_strlit("PROPPATCH");
    reveal_strlit("MKCALENDAR");
    reveal_strlit("DELETE");
    reveal_strlit("GET");
    reveal_strlit("PUT");
    assert("OPTIONS"@.len() != "PROPFIND"@.len());
    assert("OPTIONS"@.len() != "REPORT"@.len());
    assert("OPTIONS"@.len() != "PROPPATCH"@.len());
    assert("OPTIONS"@.len() != "MKCALENDAR"@.len());
    assert("OPTIONS"@.len() != "DELETE"@.len());
    assert("OPTIONS"@.len() != "GET"@.len());
    assert("OPTIONS"@.len() != "PUT"@.len());
    assert("PROPFIND"@.len() != "REPORT"@.len());
    assert("PROPFIND"@.len() != "PROPPATCH"@.len());
    assert("PROPFIND"@.len() != "MKCALENDAR"@.len());
    assert("PROPFIND"@.len() != "DELETE"@.len());
    assert("PROPFIND"@.len() != "GET"@.len());
    assert("PROPFIND"@.len() != "PUT"@.len());
    assert("REPORT"@.len() != "PROPPATCH"@.len());
    assert("REPORT"@.len() != "MKCALENDAR"@.len());
    assert("REPORT"@[0] != "DELETE"@[0]);
    assert("REPORT"@.len() != "GET"@.len());
    assert("REPORT"@.len() != "PUT"@.len());
    assert("PROPPATCH"@.len() != "MKCALENDAR"@.len());
    assert("PROPPATCH"@.len() != "DELETE"@.len());
    assert("PROPPATCH"@.len() != "GET"@.len());
    assert("PROPPATCH"@.len() != "PUT"@.len());
    assert("MKCALENDAR"@.len() != "DELETE"@.len());
    assert("MKCALENDAR"@.len() != "GET"@.len());
    assert("MKCALENDAR"@.len() != "PUT"@.len());
    assert("DELETE"@.len() != "GET"@.len());
    assert("DELETE"@.len() != "PUT"@.len());
    assert("GET"@[0] != "PUT"@[0]);
}

/// The action for a method at the server root: OPTIONS answers the DAV
/// headers, PROPFIND the root properties, anything else moves to `/caldav/`.
pub fn server_root_action(method: &str) -> (a: RootAction)
    ensures
        a == spec_root_action(method@),
{
    let m = chars_of(method);
    if eq_lit(m.as_slice(), "OPTIONS") {
        RootAction::Options
    } else if eq_lit(m.as_slice(), "PROPFIND") {
        RootAction::Propfind
    } else {
        RootAction::Redirect
    }
}

/// The action for a method at a discovery path or a calendar home.
pub fn discovery_action(method: &str) -> (a: DiscoveryAction)
    ensures
        a == spec_discovery_action(method@),
{
    let m = chars_of(method);
    if eq_lit(m.as_slice(), "OPTIONS") {
        DiscoveryAction::Options
    } else if eq_lit(m.as_slice(), "PROPFIND") {
        DiscoveryAction::Propfind
    } else {
        DiscoveryAction::NotAllowed
    }
}

/// The action for a method at a calendar collection.
pub fn collection_action(method: &str) -> (a: CollectionAction)
    ensures
        a == spec_collection_action(method@),
{
    let m = chars_of(method);
    let m = m.as_slice();
    if eq_lit(m, "OPTIONS") {
        CollectionAction::Options
    } else if eq_lit(m, "PROPFIND") {
        CollectionAction::Propfind
    } else if eq_lit(m, "REPORT") {
        CollectionAction::Report
    } else if eq_lit(m, "PROPPATCH") {
        CollectionAction::Proppatch
    } else if eq_lit(m, "MKCALENDAR") {
        CollectionAction::Mkcalendar
    } else if eq_lit(m, "DELETE") {
        CollectionAction::Delete
    } else {
        CollectionAction::NotAllowed
    }
}

/// The action for a method at a calendar object.
pub fn object_action(method: &str) -> (a: ObjectAction)
    ensures
        a == spec_object_action(method@),
{
    let m = chars_of(method);
    let m = m.as_slice();
    if eq_lit(m, "OPTIONS") {
        ObjectAction::Options
    } else if eq_lit(m, "GET") {
        ObjectAction::Get
    } else if eq_lit(m, "PUT") {
        ObjectAction::Put
    } else if eq_lit(m, "DELETE") {
        ObjectAction::Delete
    } else {
        ObjectAction::NotAllowed
    }
}

/// Every method on a collection but MKCALENDAR (which creates the calendar)
/// first checks that the user can reach the calendar.
pub fn checks_calendar_access(action: CollectionAction) -> (b: bool)
    ensures
        b == (action != CollectionAction::Mkcalendar),
{
    match action {
        CollectionAction::Mkcalendar => false,
        _ => true,
    }
}

/// Some calendar of the list has the id.
pub open spec fn has_calendar(cals: Seq<Calendar>, calendar_id: Seq<char>) -> bool {
    exists|i: int| 0 <= i < cals.len() && #[trigger] cals[i].id@ == calendar_id
}

/// Whether the calendar is among those the user can reach (owned or shared).
pub fn calendar_accessible(accessible: &Vec<Calendar>, calendar_id: &str) -> (b: bool)
    ensures
        b == has_calendar(accessible@, calendar_id@),
{
    let id = chars_of(calendar_id);
    let mut i: usize = 0;
    while i < accessible.len()
        invariant
            id@ == calendar_id@,
            i <= accessible@.len(),
            forall|j: int| 0 <= j < i ==> #[trigger] accessible@[j].id@ != calendar_id@,
        decreases accessible@.len() - i,
    {
        let c = chars_of(accessible[i].id.as_str());
        if crate::text::chars_eq(c.as_slice(), id.as_slice()) {
            return true;
        }
        i = i + 1;
    }
    false
}

/// Where a principal URL redirects: the user's calendar home.
pub fn principal_redirect(username: &str) -> (r: String)
    ensures
        r@ == "/caldav/users/"@ + username@ + "/"@,
{
    cat3("/caldav/users/", username, "/")
}

} // verus!
