use base64::Engine;
use caldav_server::caldav::auth::{parse_basic_credentials, split_credentials};
use caldav_server::caldav::dispatch::{
    calendar_accessible, checks_calendar_access, collection_action, discovery_action,
    object_action, principal_redirect, server_root_action, CollectionAction, DiscoveryAction,
    ObjectAction, RootAction,
};
use caldav_server::caldav::encode_email_for_path;
use caldav_server::caldav::mkcalendar::{extract_calendar_color, extract_displayname, extract_xml_value, mkcalendar_settings};
use caldav_server::caldav::propfind::{
    calendar_home_multistatus, calendar_multistatus, depth_from_header, email_home_multistatus,
    email_request_path, root_multistatus,
};
use caldav_server::caldav::proppatch::{extract_prop_value, proppatch_multistatus, proppatch_updates};
use caldav_server::caldav::put::{check_if_match, if_match_etag, put_status, put_uid, uid_from_filename, PutCheck};
use caldav_server::caldav::report::{
    include_calendar_data, multiget_uids, objects_multistatus, percent_decode, sync_multistatus,
    uid_from_href,
};
use caldav_server::caldav::xml::parse::{PropRequest, PropfindRequest};
use caldav_server::caldav::xml::properties::{
    calendar_href, calendar_href_for_context, calendar_object_href,
    calendar_object_href_for_context, calendar_props_for_context, email_home_props,
};
use caldav_server::caldav::auth::{user_choice, UserChoice};
use caldav_server::caldav::HrefContext;
use caldav_server::db::events::first_objects;
use caldav_server::db::models::{Calendar, CalendarObject, SyncChange};

fn stamp() -> chrono::NaiveDateTime {
    chrono::NaiveDate::from_ymd_opt(2026, 3, 1).unwrap().and_hms_opt(9, 0, 0).unwrap()
}

fn calendar(id: &str, name: &str) -> Calendar {
    Calendar {
        id: id.to_string(),
        owner_id: "u1".to_string(),
        name: name.to_string(),
        description: "".to_string(),
        color: "#FF0000".to_string(),
        timezone: "UTC".to_string(),
        ctag: "sync-1".to_string(),
        sync_token: "sync-2".to_string(),
        created_at: stamp(),
        updated_at: stamp(),
    }
}

fn object(uid: &str) -> CalendarObject {
    CalendarObject {
        id: "o1".to_string(),
        calendar_id: "cal1".to_string(),
        uid: uid.to_string(),
        etag: "\"e1\"".to_string(),
        ical_data: "BEGIN:VCALENDAR\r\nEND:VCALENDAR\r\n".to_string(),
        component_type: "VEVENT".to_string(),
        dtstart: None,
        dtend: None,
        summary: None,
        created_at: stamp(),
        updated_at: stamp(),
    }
}

#[test]
fn test_encode_email_for_path() {
    assert_eq!(encode_email_for_path("alice@example.com"), "alice%40example.com");
    assert_eq!(encode_email_for_path("no-at-sign"), "no-at-sign");
    assert_eq!(encode_email_for_path("a@b@c"), "a%40b%40c");
}

#[test]
fn percent_decode_cases() {
    assert_eq!(percent_decode("alice%40example.com"), "alice@example.com");
    assert_eq!(percent_decode("a%2Fb"), "a/b");
    assert_eq!(percent_decode("a%2fb"), "a/b");
    assert_eq!(percent_decode("%zzx"), "%x");
    assert_eq!(percent_decode("abc%4"), "abc%");
    assert_eq!(percent_decode("abc%"), "abc%");
    assert_eq!(percent_decode("%+9"), "\u{9}");
    assert_eq!(percent_decode("%e9"), "\u{e9}");
}

#[test]
fn decoding_undoes_email_encoding() {
    for e in ["alice@example.com", "a@b@c", "plain", ""] {
        assert_eq!(percent_decode(&encode_email_for_path(e)), e);
    }
}

#[test]
fn multiget_hrefs_to_uids() {
    let hrefs = vec![
        "/caldav/users/alice/work/event1.ics".to_string(),
        "/calendar/dav/a%40b.com/user/work/ev%40x.ics".to_string(),
        "/caldav/users/alice/work/".to_string(),
        "plain.ics".to_string(),
    ];
    assert_eq!(multiget_uids(&hrefs), vec!["event1", "ev@x", "plain"]);
    assert_eq!(uid_from_href("/x/y.ics.ics").as_deref(), Some("y.ics"));
    assert_eq!(uid_from_href("/x/y.txt"), None);
}

#[test]
fn calendar_data_requested() {
    let props = vec![
        PropRequest { namespace: "DAV:".to_string(), local_name: "getetag".to_string() },
        PropRequest {
            namespace: "urn:ietf:params:xml:ns:caldav".to_string(),
            local_name: "calendar-data".to_string(),
        },
    ];
    assert!(include_calendar_data(&props));
    assert!(!include_calendar_data(&props[..1].to_vec()));
}

#[test]
fn hrefs_by_context() {
    assert_eq!(calendar_href("alice", "work"), "/caldav/users/alice/work/");
    assert_eq!(calendar_object_href("alice", "work", "e1"), "/caldav/users/alice/work/e1.ics");
    let by_email = HrefContext { email: Some("a%40b.com".to_string()), username: "alice".to_string() };
    let by_name = HrefContext { email: None, username: "alice".to_string() };
    assert_eq!(calendar_href_for_context(&by_email, "work"), "/calendar/dav/a%40b.com/user/work/");
    assert_eq!(calendar_href_for_context(&by_name, "work"), "/caldav/users/alice/work/");
    assert_eq!(
        calendar_object_href_for_context(&by_email, "work", "e1"),
        "/calendar/dav/a%40b.com/user/work/e1.ics"
    );
    assert_eq!(calendar_object_href_for_context(&by_name, "work", "e1"), "/caldav/users/alice/work/e1.ics");
}

#[test]
fn calendar_props_use_context_hrefs() {
    let ctx = HrefContext { email: Some("a%40b.com".to_string()), username: "alice".to_string() };
    let props = calendar_props_for_context(&ctx, &calendar("cal1", "Work"));
    assert_eq!(props.len(), 17);
    assert_eq!(props[9].name, "current-user-principal");
    match &props[9].value {
        caldav_server::caldav::xml::multistatus::PropContent::Xml(x) => {
            assert_eq!(x, "<D:href>/calendar/dav/a%40b.com/user/</D:href>")
        }
        _ => panic!("expected xml"),
    }
    match &props[7].value {
        caldav_server::caldav::xml::multistatus::PropContent::Text(t) => assert_eq!(t, "data:,sync-1"),
        _ => panic!("expected text"),
    }
    assert_eq!(email_home_props("alice", "a@b.com", "/p/").len(), 16);
}

#[test]
fn depth_header_values() {
    assert_eq!(depth_from_header(Some("1")), 1);
    assert_eq!(depth_from_header(Some("0")), 0);
    assert_eq!(depth_from_header(Some("infinity")), 0);
    assert_eq!(depth_from_header(None), 0);
}

#[test]
fn root_answers_with_or_without_user() {
    let with_user = String::from_utf8(root_multistatus("/", Some("alice"))).unwrap();
    assert!(with_user.contains("<D:href>/caldav/users/alice/</D:href>"));
    let anonymous = String::from_utf8(root_multistatus("/caldav/", None)).unwrap();
    assert!(anonymous.contains("<D:unauthenticated/>"));
    assert!(!anonymous.contains("alice"));
}

#[test]
fn calendar_home_depth_controls_listing() {
    let cals = vec![calendar("cal1", "Work")];
    let d0 = String::from_utf8(calendar_home_multistatus("alice", &PropfindRequest::AllProp, 0, &cals)).unwrap();
    assert!(!d0.contains("/caldav/users/alice/cal1/"));
    let d1 = String::from_utf8(calendar_home_multistatus("alice", &PropfindRequest::AllProp, 1, &cals)).unwrap();
    assert!(d1.contains("<D:href>/caldav/users/alice/cal1/</D:href>"));
    assert!(d1.contains("<D:displayname>Work</D:displayname>"));
}

#[test]
fn email_home_lists_calendars_under_email_path() {
    let path = email_request_path("alice@example.com");
    assert_eq!(path, "/calendar/dav/alice%40example.com/user/");
    let cals = vec![calendar("cal1", "Work")];
    let xml = String::from_utf8(email_home_multistatus(
        "alice",
        "alice@example.com",
        &path,
        &PropfindRequest::AllProp,
        1,
        &cals,
    ))
    .unwrap();
    assert!(xml.contains("<D:href>/calendar/dav/alice%40example.com/user/cal1/</D:href>"));
    assert!(xml.contains("mailto:alice@example.com"));
}

#[test]
fn calendar_propfind_with_specific_props_has_404() {
    let ctx = HrefContext { email: None, username: "alice".to_string() };
    let req = PropfindRequest::Props(vec![
        PropRequest { namespace: "DAV:".to_string(), local_name: "displayname".to_string() },
        PropRequest { namespace: "DAV:".to_string(), local_name: "quota-used-bytes".to_string() },
    ]);
    let xml = String::from_utf8(calendar_multistatus(&ctx, &calendar("cal1", "Work"), &req, 1, &vec![object("e1")])).unwrap();
    assert!(xml.contains("HTTP/1.1 200 OK"));
    assert!(xml.contains("HTTP/1.1 404 Not Found"));
    assert!(xml.contains("<D:quota-used-bytes/>"));
    assert!(xml.contains("<D:href>/caldav/users/alice/cal1/e1.ics</D:href>"));
}

#[test]
fn report_bodies() {
    let ctx = HrefContext { email: None, username: "alice".to_string() };
    let xml = String::from_utf8(objects_multistatus(&ctx, "cal1", &vec![object("e1")])).unwrap();
    assert!(xml.contains("<C:calendar-data>"));
    assert!(xml.contains("<D:getetag>&quot;e1&quot;</D:getetag>"));

    let change = |uid: &str, kind: &str| SyncChange {
        id: 1,
        calendar_id: "cal1".to_string(),
        object_uid: uid.to_string(),
        change_type: kind.to_string(),
        sync_token: "t".to_string(),
        created_at: stamp(),
    };
    let changes = vec![
        (change("gone", "deleted"), None),
        (change("e1", "modified"), Some(object("e1"))),
        (change("vanished", "created"), None),
    ];
    let delta = String::from_utf8(sync_multistatus(&ctx, "cal1", "sync-9", false, "tok", &vec![], &changes)).unwrap();
    assert!(delta.contains(
        "<D:response><D:href>/caldav/users/alice/cal1/gone.ics</D:href><D:status>HTTP/1.1 404 Not Found</D:status></D:response>"
    ));
    assert!(delta.contains("e1.ics"));
    assert!(!delta.contains("vanished"));
    assert!(!delta.contains("calendar-data"));
    assert!(delta.contains("<D:sync-token>data:,sync-9</D:sync-token>"));
    let initial = String::from_utf8(sync_multistatus(&ctx, "cal1", "data:,x", true, "", &vec![object("e2")], &changes)).unwrap();
    assert!(initial.contains("e2.ics"));
    assert!(!initial.contains("gone"));
    assert!(initial.contains("<C:calendar-data>"));
}

#[test]
fn routing_by_method() {
    assert_eq!(server_root_action("OPTIONS"), RootAction::Options);
    assert_eq!(server_root_action("PROPFIND"), RootAction::Propfind);
    assert_eq!(server_root_action("GET"), RootAction::Redirect);
    assert_eq!(discovery_action("DELETE"), DiscoveryAction::NotAllowed);
    assert_eq!(collection_action("REPORT"), CollectionAction::Report);
    assert_eq!(collection_action("MKCALENDAR"), CollectionAction::Mkcalendar);
    assert_eq!(collection_action("PATCH"), CollectionAction::NotAllowed);
    assert_eq!(object_action("PUT"), ObjectAction::Put);
    assert_eq!(object_action("PROPFIND"), ObjectAction::NotAllowed);
    assert!(!checks_calendar_access(CollectionAction::Mkcalendar));
    assert!(checks_calendar_access(CollectionAction::Delete));
    assert_eq!(principal_redirect("bob"), "/caldav/users/bob/");
}

#[test]
fn access_check_by_calendar_id() {
    let cals = vec![calendar("cal1", "Work"), calendar("cal2", "Home")];
    assert!(calendar_accessible(&cals, "cal2"));
    assert!(!calendar_accessible(&cals, "cal3"));
    assert!(!calendar_accessible(&vec![], "cal1"));
}

#[test]
fn put_decisions() {
    assert_eq!(uid_from_filename("event.ics"), "event");
    assert_eq!(uid_from_filename("event.ics.ics"), "event");
    assert_eq!(uid_from_filename("event"), "event");
    assert_eq!(put_uid(&Some("body-uid".to_string()), "url"), "body-uid");
    assert_eq!(put_uid(&None, "url"), "url");
    assert_eq!(if_match_etag(Some("*")), None);
    assert_eq!(if_match_etag(Some("\"a\"")).as_deref(), Some("\"a\""));
    assert_eq!(if_match_etag(None), None);
    assert_eq!(check_if_match("\"a\"", Some("\"a\"")), PutCheck::Proceed);
    assert_eq!(check_if_match("\"a\"", Some("\"b\"")), PutCheck::EtagMismatch);
    assert_eq!(check_if_match("\"a\"", None), PutCheck::Missing);
    assert_eq!(put_status(true), 201);
    assert_eq!(put_status(false), 204);
}

#[test]
fn basic_credentials() {
    let enc = base64::engine::general_purpose::STANDARD.encode("alice:pa:ss");
    let parsed = parse_basic_credentials(&format!("Basic {enc}")).unwrap();
    assert_eq!(parsed, ("alice".to_string(), "pa:ss".to_string()));
    assert_eq!(parse_basic_credentials(&format!("Bearer {enc}")), None);
    assert_eq!(parse_basic_credentials("Basic !!!"), None);
    let no_colon = base64::engine::general_purpose::STANDARD.encode("alice");
    assert_eq!(parse_basic_credentials(&format!("Basic {no_colon}")), None);
    assert_eq!(split_credentials(vec![0xff, b':']), None);
}

#[test]
fn mkcalendar_body_values() {
    let body = br#"<?xml version="1.0"?>
    <C:mkcalendar xmlns:D="DAV:" xmlns:C="urn:ietf:params:xml:ns:caldav" xmlns:A="http://apple.com/ns/ical/">
      <D:set><D:prop>
        <D:displayname>Team &amp; Co</D:displayname>
        <A:calendar-color>#00FF00</A:calendar-color>
      </D:prop></D:set>
    </C:mkcalendar>"#;
    assert_eq!(extract_displayname(body).as_deref(), Some("Team & Co"));
    assert_eq!(extract_calendar_color(body).as_deref(), Some("#00FF00"));
    assert_eq!(extract_displayname(b""), None);
    let (name, color) = mkcalendar_settings("cal9", b"");
    assert_eq!((name.as_str(), color.as_str()), ("cal9", "#0E61B9"));
    assert_eq!(extract_xml_value("<a><b/>x</a>", "b"), None);
}

#[test]
fn proppatch_body_and_answer() {
    let body = br#"<D:propertyupdate xmlns:D="DAV:"><D:set><D:prop><D:displayname>New</D:displayname></D:prop></D:set></D:propertyupdate>"#;
    let u = proppatch_updates(body);
    assert_eq!(u.name.as_deref(), Some("New"));
    assert_eq!(u.description, None);
    assert_eq!(extract_prop_value("<x><y>1</y></x>", "y").as_deref(), Some("1"));
    let by_name = HrefContext { email: None, username: "alice".to_string() };
    let xml = String::from_utf8(proppatch_multistatus(&by_name, "cal1", &u)).unwrap();
    assert!(xml.contains("<D:href>/caldav/users/alice/cal1/</D:href>"));
    assert!(xml.contains("<D:displayname/>"));
    assert!(!xml.contains("calendar-color"));
    let by_email = HrefContext { email: Some("alice%40example.com".to_string()), username: "alice".to_string() };
    let xml = String::from_utf8(proppatch_multistatus(&by_email, "cal1", &u)).unwrap();
    assert!(xml.contains("<D:href>/calendar/dav/alice%40example.com/user/cal1/</D:href>"));
    assert!(!xml.contains("/caldav/users/"));
}

#[test]
fn user_choice_follows_the_header() {
    assert!(matches!(user_choice(None), UserChoice::FromPath));
    // "alice:secret"
    match user_choice(Some("Basic YWxpY2U6c2VjcmV0")) {
        UserChoice::Credentials(u, p) => assert_eq!((u.as_str(), p.as_str()), ("alice", "secret")),
        _ => panic!("expected credentials"),
    }
    assert!(matches!(user_choice(Some("Bearer abc")), UserChoice::Reject));
    assert!(matches!(user_choice(Some("Basic !!!")), UserChoice::Reject));
}

#[test]
fn listings_keep_the_first_objects_up_to_the_limit() {
    let objs = || vec![object("a"), object("b"), object("c")];
    let uids = |v: Vec<CalendarObject>| v.into_iter().map(|o| o.uid).collect::<Vec<_>>();
    assert_eq!(uids(first_objects(objs(), 2)), vec!["a", "b"]);
    assert_eq!(uids(first_objects(objs(), 3)), vec!["a", "b", "c"]);
    assert_eq!(uids(first_objects(objs(), 50)), vec!["a", "b", "c"]);
    assert!(first_objects(objs(), 0).is_empty());
}
