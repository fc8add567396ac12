//! The WebDAV/CalDAV properties of each resource, and the selection of the
//! properties a PROPFIND asks for.
use vstd::prelude::*;

use super::multistatus::{
    prop_views, spec_prefix_name, PropContent, PropContentView, PropValue, PropValueView,
};
use super::parse::{prop_request_views, PropRequest, PropRequestView, PropfindRequest, PropfindRequestView};
use super::{spec_ns_prefix, APPLE_NS, CALDAV_NS, CS_NS, DAV_NS};
use crate::caldav::HrefContext;
use crate::db::models::{Calendar, CalendarObject};
use crate::text::{cat, cat3, chars_eq, chars_of, string_views};

verus! {

/// The privileges of a principal's home: read and write.
pub const HOME_PRIVILEGES: &'static str = "<D:privilege><D:read/></D:privilege>\
     <D:privilege><D:write/></D:privilege>";

/// The privileges of a calendar: read, write and write-content.
pub const CALENDAR_PRIVILEGES: &'static str = "<D:privilege><D:read/></D:privilege>\
     <D:privilege><D:write/></D:privilege>\
     <D:privilege><D:write-content/></D:privilege>";

/// The reports the server supports.
pub const SUPPORTED_REPORTS: &'static str = "<D:supported-report><D:report><C:calendar-multiget/></D:report></D:supported-report>\
     <D:supported-report><D:report><C:calendar-query/></D:report></D:supported-report>\
     <D:supported-report><D:report><D:sync-collection/></D:report></D:supported-report>";

/// The components a calendar holds.
pub const SUPPORTED_COMPONENTS: &'static str = "<C:comp name=\"VEVENT\"/><C:comp name=\"VTODO\"/>";

// ---------------------------------------------------------------------------
// Sync tokens and namespace prefixes
// ---------------------------------------------------------------------------

/// A token that already holds a `:` is a URI; any other gets `data:,` in
/// front of it.
pub open spec fn spec_sync_token_uri(token: Seq<char>) -> Seq<char> {
    if token.contains(':') {
        token
    } else {
        "data:,"@ + token
    }
}

/// Ensure a sync token is a valid URI (RFC 6578 requirement).
/// Old tokens without a URI scheme get wrapped with `data:,` prefix.
pub fn ensure_sync_token_uri(token: &str) -> (r: String)
    ensures
        r@ == spec_sync_token_uri(token@),
{
    let c = chars_of(token);
    let mut i: usize = 0;
    while i < c.len()
        invariant
            c@ == token@,
            i <= c@.len(),
            forall|j: int| 0 <= j < i ==> c@[j] != ':',
        decreases c@.len() - i,
    {
        if c[i] == ':' {
            assert(token@.contains(':')) by {
                assert(token@[i as int] == ':');
            }
            return String::from_str(token);
        }
        i = i + 1;
    }
    cat("data:,", token)
}

/// Wrapping a sync token as a URI a second time changes nothing.
pub proof fn lemma_sync_token_uri_idempotent(token: Seq<char>)
    ensures
        spec_sync_token_uri(spec_sync_token_uri(token)) == spec_sync_token_uri(token),
        spec_sync_token_uri(token).contains(':'),
{
    reveal_strlit("data:,");
    if !token.contains(':') {
        let w = "data:,"@ + token;
        assert(w[4] == ':');
    }
}

fn is_ns(namespace: &[char], uri: &str) -> (b: bool)
    ensures
        b == (namespace@ == uri@),
{
    let u = chars_of(uri);
    chars_eq(namespace, u.as_slice())
}

/// Map a namespace URI to its XML prefix (matching the prefixes declared in
/// multistatus).
pub fn ns_prefix(namespace: &str) -> (p: &'static str)
    ensures
        p@ == spec_ns_prefix(namespace@),
{
    let n = chars_of(namespace);
    let n = n.as_slice();
    if is_ns(n, DAV_NS) {
        "D"
    } else if is_ns(n, CALDAV_NS) {
        "C"
    } else if is_ns(n, APPLE_NS) {
        "A"
    } else if is_ns(n, CS_NS) {
        "CS"
    } else {
        "D"
    }
}


// ---------------------------------------------------------------------------
// Property lists
// ---------------------------------------------------------------------------

/// A property with its name, namespace and value.
pub open spec fn pv(name: Seq<char>, namespace: Seq<char>, value: PropContentView) -> PropValueView {
    PropValueView { name, namespace, value }
}

/// `<D:href>inner</D:href>`
pub open spec fn href_xml(inner: Seq<char>) -> Seq<char> {
    "<D:href>"@ + inner + "</D:href>"@
}

/// The principal path of a user: `/caldav/users/{username}/`.
pub open spec fn user_path(username: Seq<char>) -> Seq<char> {
    "/caldav/users/"@ + username + "/"@
}

fn prop(name: &str, namespace: &str, value: PropContent) -> (p: PropValue)
    ensures
        p@ == pv(name@, namespace@, value@),
{
    PropValue { name: String::from_str(name), namespace: String::from_str(namespace), value }
}

fn text(s: &str) -> (c: PropContent)
    ensures
        c@ == PropContentView::Text(s@),
{
    PropContent::Text(String::from_str(s))
}

fn xml(s: &str) -> (c: PropContent)
    ensures
        c@ == PropContentView::Xml(s@),
{
    PropContent::Xml(String::from_str(s))
}

fn href(inner: &str) -> (c: PropContent)
    ensures
        c@ == PropContentView::Xml(href_xml(inner@)),
{
    PropContent::Xml(cat3("<D:href>", inner, "</D:href>"))
}

/// The properties of the CalDAV root for an authenticated user.
pub open spec fn spec_root_props(username: Seq<char>) -> Seq<PropValueView> {
    seq![
        pv("resourcetype"@, DAV_NS@, PropContentView::Xml("<D:collection/>"@)),
        pv("current-user-principal"@, DAV_NS@, PropContentView::Xml(href_xml(user_path(username)))),
        pv("displayname"@, DAV_NS@, PropContentView::Text("CalDAV Server"@)),
    ]
}

/// Build the standard set of properties for the CalDAV root resource.
pub fn root_props(username: &str) -> (v: Vec<PropValue>)
    ensures
        prop_views(v@) == spec_root_props(username@),
{
    let principal = cat3("/caldav/users/", username, "/");
    let v = vec![
        prop("resourcetype", DAV_NS, xml("<D:collection/>")),
        prop("current-user-principal", DAV_NS, href(principal.as_str())),
        prop("displayname", DAV_NS, text("CalDAV Server")),
    ];
    assert(prop_views(v@) =~= spec_root_props(username@));
    v
}

/// The properties of the CalDAV root when nobody is authenticated.
pub open spec fn spec_root_props_unauthenticated() -> Seq<PropValueView> {
    seq![
        pv("resourcetype"@, DAV_NS@, PropContentView::Xml("<D:collection/>"@)),
        pv("current-user-principal"@, DAV_NS@, PropContentView::Xml("<D:unauthenticated/>"@)),
        pv("displayname"@, DAV_NS@, PropContentView::Text("CalDAV Server"@)),
    ]
}

/// Build properties for the CalDAV root when the user is NOT authenticated.
/// Uses <D:unauthenticated/> for current-user-principal per RFC 5397.
pub fn root_props_unauthenticated() -> (v: Vec<PropValue>)
    ensures
        prop_views(v@) == spec_root_props_unauthenticated(),
{
    let v = vec![
        prop("resourcetype", DAV_NS, xml("<D:collection/>")),
        prop("current-user-principal", DAV_NS, xml("<D:unauthenticated/>")),
        prop("displayname", DAV_NS, text("CalDAV Server")),
    ];
    assert(prop_views(v@) =~= spec_root_props_unauthenticated());
    v
}

/// The properties of a user's calendar home.
pub open spec fn spec_calendar_home_props(username: Seq<char>) -> Seq<PropValueView> {
    seq![
        pv("resourcetype"@, DAV_NS@, PropContentView::Xml("<D:collection/>"@)),
        pv("displayname"@, DAV_NS@, PropContentView::Text(username + "'s calendars"@)),
        pv("current-user-principal"@, DAV_NS@, PropContentView::Xml(href_xml(user_path(username)))),
    ]
}

/// Build the standard set of properties for a calendar-home-set resource.
pub fn calendar_home_props(username: &str) -> (v: Vec<PropValue>)
    ensures
        prop_views(v@) == spec_calendar_home_props(username@),
{
    let principal = cat3("/caldav/users/", username, "/");
    let v = vec![
        prop("resourcetype", DAV_NS, xml("<D:collection/>")),
        prop("displayname", DAV_NS, PropContent::Text(cat(username, "'s calendars"))),
        prop("current-user-principal", DAV_NS, href(principal.as_str())),
    ];
    assert(prop_views(v@) =~= spec_calendar_home_props(username@));
    v
}


/// The properties of the email home URL (`/calendar/dav/{email}/user/`):
/// `request_path` stands for the principal, the calendar home and the
/// owner, with the scheduling, notification and dropbox URLs under it.
pub open spec fn spec_email_home_props(
    username: Seq<char>,
    email: Seq<char>,
    request_path: Seq<char>,
) -> Seq<PropValueView> {
    seq![
        pv("resourcetype"@, DAV_NS@, PropContentView::Xml("<D:collection/><D:principal/>"@)),
        pv("displayname"@, DAV_NS@, PropContentView::Text(username)),
        pv("current-user-principal"@, DAV_NS@, PropContentView::Xml(href_xml(request_path))),
        pv("principal-URL"@, DAV_NS@, PropContentView::Xml(href_xml(request_path))),
        pv("calendar-home-set"@, CALDAV_NS@, PropContentView::Xml(href_xml(request_path))),
        pv(
            "calendar-user-address-set"@,
            CALDAV_NS@,
            PropContentView::Xml(href_xml("mailto:"@ + email)),
        ),
        pv(
            "email-address-set"@,
            CS_NS@,
            PropContentView::Xml("<CS:email-address>"@ + email + "</CS:email-address>"@),
        ),
        pv(
            "schedule-inbox-URL"@,
            CALDAV_NS@,
            PropContentView::Xml(href_xml(request_path + "inbox/"@)),
        ),
        pv(
            "schedule-outbox-URL"@,
            CALDAV_NS@,
            PropContentView::Xml(href_xml(request_path + "outbox/"@)),
        ),
        pv("supported-report-set"@, DAV_NS@, PropContentView::Xml(SUPPORTED_REPORTS@)),
        pv("current-user-privilege-set"@, DAV_NS@, PropContentView::Xml(HOME_PRIVILEGES@)),
        pv(
            "notification-URL"@,
            CS_NS@,
            PropContentView::Xml(href_xml(request_path + "notifications/"@)),
        ),
        pv(
            "dropbox-home-URL"@,
            CS_NS@,
            PropContentView::Xml(href_xml(request_path + "dropbox/"@)),
        ),
        pv("principal-collection-set"@, DAV_NS@, PropContentView::Xml(href_xml(request_path))),
        pv("resource-id"@, DAV_NS@, PropContentView::Xml(href_xml("urn:uuid:"@ + username))),
        pv("owner"@, DAV_NS@, PropContentView::Xml(href_xml(request_path))),
    ]
}

/// Build properties for the Apple-proprietary email home URL
/// (/calendar/dav/{email}/user/) when the user IS authenticated.
///
/// `dataaccessd` treats this URL as both the principal and calendar home.
/// We set `current-user-principal`, `principal-URL`, and `calendar-home-set`
/// all to point back to `request_path` (the URL the client is already at),
/// so it never needs to follow a redirect to find the calendar list.
pub fn email_home_props(username: &str, email: &str, request_path: &str) -> (v: Vec<PropValue>)
    ensures
        prop_views(v@) == spec_email_home_props(username@, email@, request_path@),
{
    let mailto = cat("mailto:", email);
    let inbox = cat(request_path, "inbox/");
    let outbox = cat(request_path, "outbox/");
    let notifications = cat(request_path, "notifications/");
    let dropbox = cat(request_path, "dropbox/");
    let urn = cat("urn:uuid:", username);
    let v = vec![
        prop("resourcetype", DAV_NS, xml("<D:collection/><D:principal/>")),
        prop("displayname", DAV_NS, text(username)),
        prop("current-user-principal", DAV_NS, href(request_path)),
        prop("principal-URL", DAV_NS, href(request_path)),
        prop("calendar-home-set", CALDAV_NS, href(request_path)),
        prop("calendar-user-address-set", CALDAV_NS, href(mailto.as_str())),
        prop(
            "email-address-set",
            CS_NS,
            PropContent::Xml(cat3("<CS:email-address>", email, "</CS:email-address>")),
        ),
        prop("schedule-inbox-URL", CALDAV_NS, href(inbox.as_str())),
        prop("schedule-outbox-URL", CALDAV_NS, href(outbox.as_str())),
        prop("supported-report-set", DAV_NS, xml(SUPPORTED_REPORTS)),
        prop("current-user-privilege-set", DAV_NS, xml(HOME_PRIVILEGES)),
        prop("notification-URL", CS_NS, href(notifications.as_str())),
        prop("dropbox-home-URL", CS_NS, href(dropbox.as_str())),
        prop("principal-collection-set", DAV_NS, href(request_path)),
        prop("resource-id", DAV_NS, href(urn.as_str())),
        prop("owner", DAV_NS, href(request_path)),
    ];
    assert(prop_views(v@) =~= spec_email_home_props(username@, email@, request_path@));
    v
}

/// The properties of a calendar collection, seen from a user's principal.
pub open spec fn spec_calendar_props(username: Seq<char>, cal: Calendar) -> Seq<PropValueView> {
    seq![
        pv("resourcetype"@, DAV_NS@, PropContentView::Xml("<D:collection/><C:calendar/>"@)),
        pv("displayname"@, DAV_NS@, PropContentView::Text(cal.name@)),
        pv("calendar-description"@, CALDAV_NS@, PropContentView::Text(cal.description@)),
        pv("calendar-color"@, APPLE_NS@, PropContentView::Text(cal.color@)),
        pv("calendar-timezone"@, CALDAV_NS@, PropContentView::Text(cal.timezone@)),
        pv(
            "supported-calendar-component-set"@,
            CALDAV_NS@,
            PropContentView::Xml(SUPPORTED_COMPONENTS@),
        ),
        pv("getctag"@, CS_NS@, PropContentView::Text(spec_sync_token_uri(cal.ctag@))),
        pv("sync-token"@, DAV_NS@, PropContentView::Text(spec_sync_token_uri(cal.sync_token@))),
        pv("current-user-principal"@, DAV_NS@, PropContentView::Xml(href_xml(user_path(username)))),
        pv("current-user-privilege-set"@, DAV_NS@, PropContentView::Xml(CALENDAR_PRIVILEGES@)),
        pv("owner"@, DAV_NS@, PropContentView::Xml(href_xml(user_path(username)))),
        pv("supported-report-set"@, DAV_NS@, PropContentView::Xml(SUPPORTED_REPORTS@)),
    ]
}

/// The value a property list gives for a name: every entry of that name
/// holds `value`, and there is one.
pub open spec fn names_value(props: Seq<PropValueView>, name: Seq<char>, value: PropContentView) -> bool {
    &&& exists|i: int| 0 <= i < props.len() && #[trigger] props[i].name == name
    &&& forall|i: int| 0 <= i < props.len() && #[trigger] props[i].name == name ==> props[i].value == value
}

/// A calendar's own settings reach a client under their own property names,
/// in both forms of a calendar's properties: `displayname` is its name,
/// `calendar-description` its description, `calendar-color` its color and
/// `calendar-timezone` its time zone.
pub proof fn lemma_calendar_settings_by_name(email: Option<Seq<char>>, username: Seq<char>, cal: Calendar)
    ensures
        names_value(spec_calendar_props(username, cal), "displayname"@, PropContentView::Text(cal.name@)),
        names_value(
            spec_calendar_props(username, cal),
            "calendar-description"@,
            PropContentView::Text(cal.description@),
        ),
        names_value(spec_calendar_props(username, cal), "calendar-color"@, PropContentView::Text(cal.color@)),
        names_value(
            spec_calendar_props(username, cal),
            "calendar-timezone"@,
            PropContentView::Text(cal.timezone@),
        ),
        names_value(
            spec_calendar_props_for_context(email, username, cal),
            "displayname"@,
            PropContentView::Text(cal.name@),
        ),
        names_value(
            spec_calendar_props_for_context(email, username, cal),
            "calendar-description"@,
            PropContentView::Text(cal.description@),
        ),
        names_value(
            spec_calendar_props_for_context(email, username, cal),
            "calendar-color"@,
            PropContentView::Text(cal.color@),
        ),
        names_value(
            spec_calendar_props_for_context(email, username, cal),
            "calendar-timezone"@,
            PropContentView::Text(cal.timezone@),
        ),
{
    reveal_strlit("resourcetype");
    reveal_strlit("displayname");
    reveal_strlit("calendar-description");
    reveal_strlit("calendar-color");
    reveal_strlit("calendar-order");
    reveal_strlit("calendar-timezone");
    reveal_strlit("supported-calendar-component-set");
    reveal_strlit("getctag");
    reveal_strlit("sync-token");
    reveal_strlit("current-user-principal");
    reveal_strlit("current-user-privilege-set");
    reveal_strlit("owner");
    reveal_strlit("supported-report-set");
    reveal_strlit("schedule-calendar-transp");
    reveal_strlit("schedule-default-calendar-URL");
    reveal_strlit("getcontenttype");
    reveal_strlit("resource-id");
    assert("displayname"@.len() != "resourcetype"@.len());
    assert("displayname"@.len() != "calendar-description"@.len());
    assert("displayname"@.len() != "calendar-color"@.len());
    assert("displayname"@.len() != "calendar-order"@.len());
    assert("displayname"@.len() != "calendar-timezone"@.len());
    assert("displayname"@.len() != "supported-calendar-component-set"@.len());
    assert("displayname"@.len() != "getctag"@.len());
    assert("displayname"@.len() != "sync-token"@.len());
    assert("displayname"@.len() != "current-user-principal"@.len());
    assert("displayname"@.len() != "current-user-privilege-set"@.len());
    assert("displayname"@.len() != "owner"@.len());
    assert("displayname"@.len() != "supported-report-set"@.len());
    assert("displayname"@.len() != "schedule-calendar-transp"@.len());
    assert("displayname"@.len() != "schedule-default-calendar-URL"@.len());
    assert("displayname"@.len() != "getcontenttype"@.len());
    assert("displayname"@[0] != "resource-id"@[0]);
    assert("calendar-description"@.len() != "resourcetype"@.len());
    assert("calendar-description"@.len() != "displayname"@.len());
    assert("calendar-description"@.len() != "calendar-color"@.len());
    assert("calendar-description"@.len() != "calendar-order"@.len());
    assert("calendar-description"@.len() != "calendar-timezone"@.len());
    assert("calendar-description"@.len() != "supported-calendar-component-set"@.len());
    assert("calendar-description"@.len() != "getctag"@.len());
    assert("calendar-description"@.len() != "sync-token"@.len());
    assert("calendar-description"@.len() != "current-user-principal"@.len());
    assert("calendar-description"@.len() != "current-user-privilege-set"@.len());
    assert("calendar-description"@.len() != "owner"@.len());
    assert("calendar-description"@[0] != "supported-report-set"@[0]);
    assert("calendar-description"@.len() != "schedule-calendar-transp"@.len());
    assert("calendar-description"@.len() != "schedule-default-calendar-URL"@.len());
    assert("calendar-description"@.len() != "getcontenttype"@.len());
    assert("calendar-description"@.len() != "resource-id"@.len());
    assert("calendar-color"@.len() != "resourcetype"@.len());
    assert("calendar-color"@.len() != "displayname"@.len());
    assert("calendar-color"@.len() != "calendar-description"@.len());
    assert("calendar-color"@[9] != "calendar-order"@[9]);
    assert("calendar-color"@.len() != "calendar-timezone"@.len());
    assert("calendar-color"@.len() != "supported-calendar-component-set"@.len());
    assert("calendar-color"@.len() != "getctag"@.len());
    assert("calendar-color"@.len() != "sync-token"@.len());
    assert("calendar-color"@.len() != "current-user-principal"@.len());
    assert("calendar-color"@.len() != "current-user-privilege-set"@.len());
    assert("calendar-color"@.len() != "owner"@.len());
    assert("calendar-color"@.len() != "supported-report-set"@.len());
    assert("calendar-color"@.len() != "schedule-calendar-transp"@.len());
    assert("calendar-color"@.len() != "schedule-default-calendar-URL"@.len());
    assert("calendar-color"@[0] != "getcontenttype"@[0]);
    assert("calendar-color"@.len() != "resource-id"@.len());
    assert("calendar-timezone"@.len() != "resourcetype"@.len());
    assert("calendar-timezone"@.len() != "displayname"@.len());
    assert("calendar-timezone"@.len() != "calendar-description"@.len());
    assert("calendar-timezone"@.len() != "calendar-color"@.len());
    assert("calendar-timezone"@.len() != "calendar-order"@.len());
    assert("calendar-timezone"@.len() != "supported-calendar-component-set"@.len());
    assert("calendar-timezone"@.len() != "getctag"@.len());
    assert("calendar-timezone"@.len() != "sync-token"@.len());
    assert("calendar-timezone"@.len() != "current-user-principal"@.len());
    assert("calendar-timezone"@.len() != "current-user-privilege-set"@.len());
    assert("calendar-timezone"@.len() != "owner"@.len());
    assert("calendar-timezone"@.len() != "supported-report-set"@.len());
    assert("calendar-timezone"@.len() != "schedule-calendar-transp"@.len());
    assert("calendar-timezone"@.len() != "schedule-default-calendar-URL"@.len());
    assert("calendar-timezone"@.len() != "getcontenttype"@.len());
    assert("calendar-timezone"@.len() != "resource-id"@.len());
    let p = spec_calendar_props(username, cal);
    let q = spec_calendar_props_for_context(email, username, cal);
    assert(p[1].name == "displayname"@ && p[2].name == "calendar-description"@);
    assert(p[3].name == "calendar-color"@ && p[4].name == "calendar-timezone"@);
    assert(q[1].name == "displayname"@ && q[2].name == "calendar-description"@);
    assert(q[3].name == "calendar-color"@ && q[5].name == "calendar-timezone"@);
}

/// Build the properties for a calendar collection.
pub fn calendar_props(username: &str, calendar: &Calendar) -> (v: Vec<PropValue>)
    ensures
        prop_views(v@) == spec_calendar_props(username@, *calendar),
{
    let principal = cat3("/caldav/users/", username, "/");
    let v = vec![
        prop("resourcetype", DAV_NS, xml("<D:collection/><C:calendar/>")),
        prop("displayname", DAV_NS, PropContent::Text(calendar.name.clone())),
        prop("calendar-description", CALDAV_NS, PropContent::Text(calendar.description.clone())),
        prop("calendar-color", APPLE_NS, PropContent::Text(calendar.color.clone())),
        prop("calendar-timezone", CALDAV_NS, PropContent::Text(calendar.timezone.clone())),
        prop("supported-calendar-component-set", CALDAV_NS, xml(SUPPORTED_COMPONENTS)),
        prop("getctag", CS_NS, PropContent::Text(ensure_sync_token_uri(calendar.ctag.as_str()))),
        prop(
            "sync-token",
            DAV_NS,
            PropContent::Text(ensure_sync_token_uri(calendar.sync_token.as_str())),
        ),
        prop("current-user-principal", DAV_NS, href(principal.as_str())),
        prop("current-user-privilege-set", DAV_NS, xml(CALENDAR_PRIVILEGES)),
        prop("owner", DAV_NS, href(principal.as_str())),
        prop("supported-report-set", DAV_NS, xml(SUPPORTED_REPORTS)),
    ];
    assert(prop_views(v@) =~= spec_calendar_props(username@, *calendar));
    v
}

/// The properties of a calendar object: its ETag and content type, and its
/// iCalendar data when asked for.
pub open spec fn spec_calendar_object_props(object: CalendarObject, include_data: bool) -> Seq<
    PropValueView,
> {
    let base = seq![
        pv("getetag"@, DAV_NS@, PropContentView::Text(object.etag@)),
        pv("getcontenttype"@, DAV_NS@, PropContentView::Text("text/calendar; charset=utf-8"@)),
    ];
    if include_data {
        base.push(pv("calendar-data"@, CALDAV_NS@, PropContentView::Text(object.ical_data@)))
    } else {
        base
    }
}

/// Build properties for a calendar object (event/todo).
pub fn calendar_object_props(
    _username: &str,
    _calendar_id: &str,
    object: &CalendarObject,
    include_data: bool,
) -> (v: Vec<PropValue>)
    ensures
        prop_views(v@) == spec_calendar_object_props(*object, include_data),
{
    let mut v = vec![
        prop("getetag", DAV_NS, PropContent::Text(object.etag.clone())),
        prop("getcontenttype", DAV_NS, text("text/calendar; charset=utf-8")),
    ];
    if include_data {
        v.push(prop("calendar-data", CALDAV_NS, PropContent::Text(object.ical_data.clone())));
    }
    assert(prop_views(v@) =~= spec_calendar_object_props(*object, include_data));
    v
}


// ---------------------------------------------------------------------------
// Hrefs
// ---------------------------------------------------------------------------

/// `/caldav/users/{username}/{calendar_id}/{uid}.ics`
pub open spec fn spec_calendar_object_href(username: Seq<char>, calendar_id: Seq<char>, uid: Seq<char>) -> Seq<char> {
    "/caldav/users/"@ + username + "/"@ + calendar_id + "/"@ + uid + ".ics"@
}

/// `/caldav/users/{username}/{calendar_id}/`
pub open spec fn spec_calendar_href(username: Seq<char>, calendar_id: Seq<char>) -> Seq<char> {
    "/caldav/users/"@ + username + "/"@ + calendar_id + "/"@
}

/// The href of a calendar under the email path or the username path.
pub open spec fn spec_calendar_href_for_context(
    email: Option<Seq<char>>,
    username: Seq<char>,
    calendar_id: Seq<char>,
) -> Seq<char> {
    match email {
        Some(e) => "/calendar/dav/"@ + e + "/user/"@ + calendar_id + "/"@,
        None => spec_calendar_href(username, calendar_id),
    }
}

/// The href of a calendar object under the email path or the username path.
pub open spec fn spec_calendar_object_href_for_context(
    email: Option<Seq<char>>,
    username: Seq<char>,
    calendar_id: Seq<char>,
    uid: Seq<char>,
) -> Seq<char> {
    match email {
        Some(e) => "/calendar/dav/"@ + e + "/user/"@ + calendar_id + "/"@ + uid + ".ics"@,
        None => spec_calendar_object_href(username, calendar_id, uid),
    }
}

/// The email of an href context, as text.
pub open spec fn ctx_email(ctx: HrefContext) -> Option<Seq<char>> {
    match ctx.email {
        Some(e) => Some(e@),
        None => None,
    }
}

/// Get the href for a calendar object.
pub fn calendar_object_href(username: &str, calendar_id: &str, uid: &str) -> (r: String)
    ensures
        r@ == spec_calendar_object_href(username@, calendar_id@, uid@),
{
    let mut r = cat3("/caldav/users/", username, "/");
    r.append(calendar_id);
    r.append("/");
    r.append(uid);
    r.append(".ics");
    r
}

/// Get the href for a calendar collection.
pub fn calendar_href(username: &str, calendar_id: &str) -> (r: String)
    ensures
        r@ == spec_calendar_href(username@, calendar_id@),
{
    let mut r = cat3("/caldav/users/", username, "/");
    r.append(calendar_id);
    r.append("/");
    r
}

/// Get the href for a calendar collection using an HrefContext.
/// Uses email-based path when email is available, username-based otherwise.
pub fn calendar_href_for_context(ctx: &HrefContext, calendar_id: &str) -> (r: String)
    ensures
        r@ == spec_calendar_href_for_context(ctx_email(*ctx), ctx.username@, calendar_id@),
{
    match &ctx.email {
        Some(email) => {
            let mut r = cat3("/calendar/dav/", email.as_str(), "/user/");
            r.append(calendar_id);
            r.append("/");
            r
        },
        None => calendar_href(ctx.username.as_str(), calendar_id),
    }
}

/// Get the href for a calendar object using an HrefContext.
pub fn calendar_object_href_for_context(ctx: &HrefContext, calendar_id: &str, uid: &str) -> (r: String)
    ensures
        r@ == spec_calendar_object_href_for_context(
            ctx_email(*ctx),
            ctx.username@,
            calendar_id@,
            uid@,
        ),
{
    match &ctx.email {
        Some(email) => {
            let mut r = cat3("/calendar/dav/", email.as_str(), "/user/");
            r.append(calendar_id);
            r.append("/");
            r.append(uid);
            r.append(".ics");
            r
        },
        None => calendar_object_href(ctx.username.as_str(), calendar_id, uid),
    }
}

/// The principal href of a context: the email home, or the user's path.
pub open spec fn context_principal(email: Option<Seq<char>>, username: Seq<char>) -> Seq<char> {
    match email {
        Some(e) => "/calendar/dav/"@ + e + "/user/"@,
        None => user_path(username),
    }
}

/// The properties of a calendar collection, with hrefs under the email path
/// when the context has an email and under the username path otherwise.
pub open spec fn spec_calendar_props_for_context(
    email: Option<Seq<char>>,
    username: Seq<char>,
    cal: Calendar,
) -> Seq<PropValueView> {
    let principal = context_principal(email, username);
    seq![
        pv("resourcetype"@, DAV_NS@, PropContentView::Xml("<D:collection/><C:calendar/>"@)),
        pv("displayname"@, DAV_NS@, PropContentView::Text(cal.name@)),
        pv("calendar-description"@, CALDAV_NS@, PropContentView::Text(cal.description@)),
        pv("calendar-color"@, APPLE_NS@, PropContentView::Text(cal.color@)),
        pv("calendar-order"@, APPLE_NS@, PropContentView::Text("1"@)),
        pv("calendar-timezone"@, CALDAV_NS@, PropContentView::Text(cal.timezone@)),
        pv(
            "supported-calendar-component-set"@,
            CALDAV_NS@,
            PropContentView::Xml(SUPPORTED_COMPONENTS@),
        ),
        pv("getctag"@, CS_NS@, PropContentView::Text(spec_sync_token_uri(cal.ctag@))),
        pv("sync-token"@, DAV_NS@, PropContentView::Text(spec_sync_token_uri(cal.sync_token@))),
        pv("current-user-principal"@, DAV_NS@, PropContentView::Xml(href_xml(principal))),
        pv("current-user-privilege-set"@, DAV_NS@, PropContentView::Xml(CALENDAR_PRIVILEGES@)),
        pv("owner"@, DAV_NS@, PropContentView::Xml(href_xml(principal))),
        pv("supported-report-set"@, DAV_NS@, PropContentView::Xml(SUPPORTED_REPORTS@)),
        pv("schedule-calendar-transp"@, CALDAV_NS@, PropContentView::Xml("<C:opaque/>"@)),
        pv(
            "schedule-default-calendar-URL"@,
            CALDAV_NS@,
            PropContentView::Xml(
                href_xml(spec_calendar_href_for_context(email, username, cal.id@)),
            ),
        ),
        pv("getcontenttype"@, DAV_NS@, PropContentView::Text("text/calendar; charset=utf-8"@)),
        pv("resource-id"@, DAV_NS@, PropContentView::Xml(href_xml("urn:uuid:"@ + cal.id@))),
    ]
}

/// Build the properties for a calendar collection with context-aware hrefs.
pub fn calendar_props_for_context(ctx: &HrefContext, calendar: &Calendar) -> (v: Vec<PropValue>)
    ensures
        prop_views(v@) == spec_calendar_props_for_context(
            ctx_email(*ctx),
            ctx.username@,
            *calendar,
        ),
{
    let principal_href = match &ctx.email {
        Some(email) => cat3("/calendar/dav/", email.as_str(), "/user/"),
        None => cat3("/caldav/users/", ctx.username.as_str(), "/"),
    };
    let default_href = calendar_href_for_context(ctx, calendar.id.as_str());
    let urn = cat("urn:uuid:", calendar.id.as_str());
    let v = vec![
        prop("resourcetype", DAV_NS, xml("<D:collection/><C:calendar/>")),
        prop("displayname", DAV_NS, PropContent::Text(calendar.name.clone())),
        prop("calendar-description", CALDAV_NS, PropContent::Text(calendar.description.clone())),
        prop("calendar-color", APPLE_NS, PropContent::Text(calendar.color.clone())),
        prop("calendar-order", APPLE_NS, text("1")),
        prop("calendar-timezone", CALDAV_NS, PropContent::Text(calendar.timezone.clone())),
        prop("supported-calendar-component-set", CALDAV_NS, xml(SUPPORTED_COMPONENTS)),
        prop("getctag", CS_NS, PropContent::Text(ensure_sync_token_uri(calendar.ctag.as_str()))),
        prop(
            "sync-token",
            DAV_NS,
            PropContent::Text(ensure_sync_token_uri(calendar.sync_token.as_str())),
        ),
        prop("current-user-principal", DAV_NS, href(principal_href.as_str())),
        prop("current-user-privilege-set", DAV_NS, xml(CALENDAR_PRIVILEGES)),
        prop("owner", DAV_NS, href(principal_href.as_str())),
        prop("supported-report-set", DAV_NS, xml(SUPPORTED_REPORTS)),
        prop("schedule-calendar-transp", CALDAV_NS, xml("<C:opaque/>")),
        prop("schedule-default-calendar-URL", CALDAV_NS, href(default_href.as_str())),
        prop("getcontenttype", DAV_NS, text("text/calendar; charset=utf-8")),
        prop("resource-id", DAV_NS, href(urn.as_str())),
    ];
    assert(prop_views(v@) =~= spec_calendar_props_for_context(
        ctx_email(*ctx),
        ctx.username@,
        *calendar,
    ));
    v
}


// ---------------------------------------------------------------------------
// Selecting the requested properties
// ---------------------------------------------------------------------------

/// Some request names the property (same local name, same namespace).
pub open spec fn is_requested(reqs: Seq<PropRequestView>, p: PropValueView) -> bool {
    exists|i: int|
        0 <= i < reqs.len() && #[trigger] reqs[i].local_name == p.name && reqs[i].namespace
            == p.namespace
}

/// Some property answers the request (same local name, same namespace).
pub open spec fn is_answered(found: Seq<PropValueView>, r: PropRequestView) -> bool {
    exists|i: int|
        0 <= i < found.len() && #[trigger] found[i].name == r.local_name && found[i].namespace
            == r.namespace
}

/// The available properties that some request names, in their order.
pub open spec fn requested_props(av: Seq<PropValueView>, reqs: Seq<PropRequestView>) -> Seq<
    PropValueView,
>
    decreases av.len(),
{
    if av.len() == 0 {
        seq![]
    } else {
        let rest = requested_props(av.drop_last(), reqs);
        if is_requested(reqs, av.last()) {
            rest.push(av.last())
        } else {
            rest
        }
    }
}

/// The prefixed names of the requests no found property answers, in
/// request order.
pub open spec fn missing_names(reqs: Seq<PropRequestView>, found: Seq<PropValueView>) -> Seq<
    Seq<char>,
>
    decreases reqs.len(),
{
    if reqs.len() == 0 {
        seq![]
    } else {
        let rest = missing_names(reqs.drop_last(), found);
        let r = reqs.last();
        if is_answered(found, r) {
            rest
        } else {
            rest.push(spec_prefix_name(r.namespace, r.local_name))
        }
    }
}

/// The properties with their values emptied.
pub open spec fn names_only(av: Seq<PropValueView>) -> Seq<PropValueView> {
    av.map_values(|p: PropValueView| pv(p.name, p.namespace, PropContentView::Empty))
}

/// What a PROPFIND answers from the available properties: all of them for
/// `allprop`, their names for `propname`, and for a list of properties the
/// available ones it names together with the prefixed names of those it
/// names that are not available.
pub open spec fn spec_filter_props(req: PropfindRequestView, av: Seq<PropValueView>) -> (
    Seq<PropValueView>,
    Seq<Seq<char>>,
) {
    match req {
        PropfindRequestView::AllProp => (av, seq![]),
        PropfindRequestView::PropName => (names_only(av), seq![]),
        PropfindRequestView::Props(reqs) => {
            let found = requested_props(av, reqs);
            (found, missing_names(reqs, found))
        },
    }
}

fn copy_prop(p: &PropValue) -> (r: PropValue)
    ensures
        r@ == p@,
{
    let value = match &p.value {
        PropContent::Text(t) => PropContent::Text(t.clone()),
        PropContent::Xml(x) => PropContent::Xml(x.clone()),
        PropContent::Empty => PropContent::Empty,
    };
    PropValue { name: p.name.clone(), namespace: p.namespace.clone(), value }
}

fn requested_by(requested: &Vec<PropRequest>, p: &PropValue) -> (b: bool)
    ensures
        b == is_requested(prop_request_views(requested@), p@),
{
    let ghost reqs = prop_request_views(requested@);
    let mut i: usize = 0;
    while i < requested.len()
        invariant
            reqs == prop_request_views(requested@),
            i <= requested@.len(),
            forall|j: int|
                0 <= j < i ==> !(#[trigger] reqs[j].local_name == p@.name && reqs[j].namespace
                    == p@.namespace),
        decreases requested@.len() - i,
    {
        if requested[i].local_name == p.name && requested[i].namespace == p.namespace {
            assert(reqs[i as int].local_name == p@.name);
            return true;
        }
        i = i + 1;
    }
    false
}

fn answered_by(found: &Vec<PropValue>, r: &PropRequest) -> (b: bool)
    ensures
        b == is_answered(prop_views(found@), r@),
{
    let ghost fv = prop_views(found@);
    let mut i: usize = 0;
    while i < found.len()
        invariant
            fv == prop_views(found@),
            i <= found@.len(),
            forall|j: int|
                0 <= j < i ==> !(#[trigger] fv[j].name == r@.local_name && fv[j].namespace
                    == r@.namespace),
        decreases found@.len() - i,
    {
        if found[i].name == r.local_name && found[i].namespace == r.namespace {
            assert(fv[i as int].name == r@.local_name);
            return true;
        }
        i = i + 1;
    }
    false
}

/// Filter available properties based on what the client requested in a
/// PROPFIND.
///
/// Per RFC 4918 §9.1: when a client requests specific properties, found ones
/// go in a 200 propstat and not-found ones in a 404 propstat. For `AllProp`,
/// return all available properties with no 404 list.
///
/// Returns `(found_props, not_found_prefixed_names)`.
pub fn filter_props(request: &PropfindRequest, available: Vec<PropValue>) -> (r: (
    Vec<PropValue>,
    Vec<String>,
))
    ensures
        (prop_views(r.0@), string_views(r.1@)) == spec_filter_props(request@, prop_views(available@)),
{
    let ghost av = prop_views(available@);
    match request {
        PropfindRequest::AllProp => {
            let none: Vec<String> = Vec::new();
            assert(string_views(none@) =~= seq![]);
            (available, none)
        },
        PropfindRequest::PropName => {
            let mut names: Vec<PropValue> = Vec::new();
            let mut i: usize = 0;
            while i < available.len()
                invariant
                    av == prop_views(available@),
                    i <= available@.len(),
                    prop_views(names@) =~= names_only(av.take(i as int)),
                decreases available@.len() - i,
            {
                names.push(
                    PropValue {
                        name: available[i].name.clone(),
                        namespace: available[i].namespace.clone(),
                        value: PropContent::Empty,
                    },
                );
                i = i + 1;
                assert(names_only(av.take(i as int)) =~= names_only(av.take(i - 1)).push(
                    pv(av[i - 1].name, av[i - 1].namespace, PropContentView::Empty),
                ));
            }
            assert(av.take(i as int) =~= av);
            let none: Vec<String> = Vec::new();
            assert(string_views(none@) =~= seq![]);
            (names, none)
        },
        PropfindRequest::Props(requested) => {
            let ghost reqs = prop_request_views(requested@);
            let mut found: Vec<PropValue> = Vec::new();
            let mut i: usize = 0;
            while i < available.len()
                invariant
                    av == prop_views(available@),
                    reqs == prop_request_views(requested@),
                    i <= available@.len(),
                    prop_views(found@) =~= requested_props(av.take(i as int), reqs),
                decreases available@.len() - i,
            {
                let ghost before = found@;
                assert(av.take(i + 1).drop_last() =~= av.take(i as int));
                if requested_by(requested, &available[i]) {
                    found.push(copy_prop(&available[i]));
                    assert(prop_views(found@) =~= prop_views(before).push(av[i as int]));
                }
                i = i + 1;
            }
            assert(av.take(i as int) =~= av);
            let ghost fv = prop_views(found@);
            let mut not_found: Vec<String> = Vec::new();
            let mut k: usize = 0;
            while k < requested.len()
                invariant
                    fv == prop_views(found@),
                    reqs == prop_request_views(requested@),
                    k <= requested@.len(),
                    string_views(not_found@) =~= missing_names(reqs.take(k as int), fv),
                decreases requested@.len() - k,
            {
                let ghost before = not_found@;
                assert(reqs.take(k + 1).drop_last() =~= reqs.take(k as int));
                if !answered_by(&found, &requested[k]) {
                    let prefix = ns_prefix(requested[k].namespace.as_str());
                    not_found.push(cat3(prefix, ":", requested[k].local_name.as_str()));
                    assert(string_views(not_found@) =~= string_views(before).push(
                        spec_prefix_name(reqs[k as int].namespace, reqs[k as int].local_name),
                    ));
                }
                k = k + 1;
            }
            assert(reqs.take(k as int) =~= reqs);
            (found, not_found)
        },
    }
}


/// The properties selected for a list of requests are exactly the available
/// properties that some request names, in their original order (a
/// subsequence of the available ones).
pub proof fn lemma_requested_props_exact(av: Seq<PropValueView>, reqs: Seq<PropRequestView>)
    ensures
        forall|i: int|
            0 <= i < requested_props(av, reqs).len() ==> is_requested(
                reqs,
                #[trigger] requested_props(av, reqs)[i],
            ) && av.contains(requested_props(av, reqs)[i]),
        forall|p: PropValueView| #[trigger] av.contains(p) && is_requested(reqs, p) ==> requested_props(
            av,
            reqs,
        ).contains(p),
        requested_props(av, reqs).len() <= av.len(),
    decreases av.len(),
{
    if av.len() > 0 {
        let rest = av.drop_last();
        lemma_requested_props_exact(rest, reqs);
        let f = requested_props(av, reqs);
        let fr = requested_props(rest, reqs);
        assert forall|i: int| 0 <= i < f.len() implies is_requested(reqs, #[trigger] f[i])
            && av.contains(f[i]) by {
            if i < fr.len() {
                assert(f[i] == fr[i]);
                let j = choose|j: int| 0 <= j < rest.len() && rest[j] == fr[i];
                assert(av[j] == fr[i]);
            } else {
                assert(av[av.len() - 1] == av.last());
            }
        }
        assert forall|p: PropValueView| #[trigger] av.contains(p) && is_requested(reqs, p) implies f.contains(p) by {
            let j = choose|j: int| 0 <= j < av.len() && av[j] == p;
            if j < av.len() - 1 {
                assert(rest[j] == p);
                assert(rest.contains(p));
                let k = choose|k: int| 0 <= k < fr.len() && fr[k] == p;
                assert(f[k] == p);
            } else {
                assert(f[f.len() - 1] == p);
            }
        }
    }
}

/// Every request of a PROPFIND for a list of properties is answered: either
/// a found property matches it, or its prefixed name is among the missing
/// names; and each missing name belongs to a request that nothing found
/// answers.
pub proof fn lemma_missing_names_exact(reqs: Seq<PropRequestView>, found: Seq<PropValueView>)
    ensures
        forall|i: int|
            0 <= i < reqs.len() && !is_answered(found, #[trigger] reqs[i]) ==> missing_names(
                reqs,
                found,
            ).contains(spec_prefix_name(reqs[i].namespace, reqs[i].local_name)),
        forall|k: int|
            0 <= k < missing_names(reqs, found).len() ==> exists|i: int|
                0 <= i < reqs.len() && !is_answered(found, reqs[i]) && #[trigger] missing_names(
                    reqs,
                    found,
                )[k] == spec_prefix_name(reqs[i].namespace, reqs[i].local_name),
        missing_names(reqs, found).len() <= reqs.len(),
    decreases reqs.len(),
{
    if reqs.len() > 0 {
        let rest = reqs.drop_last();
        lemma_missing_names_exact(rest, found);
        let m = missing_names(reqs, found);
        let mr = missing_names(rest, found);
        assert forall|i: int|
            0 <= i < reqs.len() && !is_answered(found, #[trigger] reqs[i]) implies m.contains(
            spec_prefix_name(reqs[i].namespace, reqs[i].local_name),
        ) by {
            if i < reqs.len() - 1 {
                assert(rest[i] == reqs[i]);
                let k = choose|k: int|
                    0 <= k < mr.len() && mr[k] == spec_prefix_name(rest[i].namespace, rest[i].local_name);
                assert(m[k] == mr[k]);
            } else {
                assert(m[m.len() - 1] == spec_prefix_name(reqs[i].namespace, reqs[i].local_name));
            }
        }
        assert forall|k: int| 0 <= k < m.len() implies exists|i: int|
            0 <= i < reqs.len() && !is_answered(found, reqs[i]) && #[trigger] m[k]
                == spec_prefix_name(reqs[i].namespace, reqs[i].local_name) by {
            if k < mr.len() {
                assert(m[k] == mr[k]);
                let i = choose|i: int|
                    0 <= i < rest.len() && !is_answered(found, rest[i]) && #[trigger] mr[k]
                        == spec_prefix_name(rest[i].namespace, rest[i].local_name);
                assert(reqs[i] == rest[i]);
            } else {
                let i = reqs.len() - 1;
                assert(reqs[i] == reqs.last());
            }
        }
    }
}

/// `propname` answers with every available property's name and namespace,
/// in order, and no values.
pub proof fn lemma_propname_names(av: Seq<PropValueView>)
    ensures
        names_only(av).len() == av.len(),
        forall|i: int|
            0 <= i < av.len() ==> (#[trigger] names_only(av)[i]).name == av[i].name
                && names_only(av)[i].namespace == av[i].namespace && names_only(av)[i].value
                == PropContentView::Empty,
{
}

} // verus!
