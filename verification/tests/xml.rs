use caldav_server::caldav::xml::multistatus::{prefix_name, MultistatusBuilder, PropContent, PropValue};
use caldav_server::caldav::xml::parse::{parse_propfind, parse_report, PropRequest, PropfindRequest, ReportRequest};
use caldav_server::caldav::xml::properties::{ensure_sync_token_uri, filter_props, ns_prefix};
use caldav_server::caldav::xml::{APPLE_NS, CALDAV_NS, CS_NS, DAV_NS};

#[test]
fn test_empty_multistatus() {
    let builder = MultistatusBuilder::new();
    let xml = String::from_utf8(builder.build()).unwrap();
    assert!(xml.contains("D:multistatus"));
    assert!(xml.contains("xmlns:D=\"DAV:\""));
    assert!(xml.contains("xmlns:C=\"urn:ietf:params:xml:ns:caldav\""));
}

#[test]
fn test_response_with_text_prop() {
    let mut builder = MultistatusBuilder::new();
    builder.add_response(
        "/caldav/",
        vec![PropValue {
            name: "displayname".to_string(),
            namespace: DAV_NS.to_string(),
            value: PropContent::Text("My Calendar".to_string()),
        }],
        vec![],
    );
    let xml = String::from_utf8(builder.build()).unwrap();
    assert!(xml.contains("<D:displayname>My Calendar</D:displayname>"));
    assert!(xml.contains("<D:href>/caldav/</D:href>"));
    assert!(xml.contains("HTTP/1.1 200 OK"));
}

#[test]
fn test_response_with_not_found_props() {
    let mut builder = MultistatusBuilder::new();
    builder.add_response("/caldav/", vec![], vec!["D:missing-prop".to_string()]);
    let xml = String::from_utf8(builder.build()).unwrap();
    assert!(xml.contains("D:missing-prop"));
    assert!(xml.contains("HTTP/1.1 404 Not Found"));
}

#[test]
fn test_prefix_name_mapping() {
    assert_eq!(prefix_name(DAV_NS, "displayname"), "D:displayname");
    assert_eq!(prefix_name(CALDAV_NS, "calendar-data"), "C:calendar-data");
    assert_eq!(prefix_name(APPLE_NS, "calendar-color"), "A:calendar-color");
    assert_eq!(prefix_name(CS_NS, "getctag"), "CS:getctag");
}

#[test]
fn test_parse_empty_propfind() {
    let result = parse_propfind(b"");
    assert!(matches!(result, PropfindRequest::AllProp));
}

#[test]
fn test_parse_allprop() {
    let xml = br#"<?xml version="1.0" encoding="utf-8"?>
    <D:propfind xmlns:D="DAV:">
        <D:allprop/>
    </D:propfind>"#;
    let result = parse_propfind(xml);
    assert!(matches!(result, PropfindRequest::AllProp));
}

#[test]
fn test_parse_specific_props() {
    let xml = br#"<?xml version="1.0" encoding="utf-8"?>
    <D:propfind xmlns:D="DAV:" xmlns:C="urn:ietf:params:xml:ns:caldav">
        <D:prop>
            <D:displayname/>
            <D:resourcetype/>
            <C:calendar-home-set/>
        </D:prop>
    </D:propfind>"#;
    let result = parse_propfind(xml);
    match result {
        PropfindRequest::Props(props) => {
            assert_eq!(props.len(), 3);
            assert_eq!(props[0].local_name, "displayname");
            assert_eq!(props[1].local_name, "resourcetype");
            assert_eq!(props[2].local_name, "calendar-home-set");
        }
        _ => panic!("Expected Props variant"),
    }
}

#[test]
fn test_parse_calendar_multiget() {
    let xml = br#"<?xml version="1.0" encoding="utf-8"?>
    <C:calendar-multiget xmlns:D="DAV:" xmlns:C="urn:ietf:params:xml:ns:caldav">
        <D:prop>
            <D:getetag/>
            <C:calendar-data/>
        </D:prop>
        <D:href>/caldav/users/alice/work/event1.ics</D:href>
        <D:href>/caldav/users/alice/work/event2.ics</D:href>
    </C:calendar-multiget>"#;
    let result = parse_report(xml).unwrap();
    match result {
        ReportRequest::CalendarMultiget { props, hrefs } => {
            assert_eq!(props.len(), 2);
            assert_eq!(hrefs.len(), 2);
            assert!(hrefs[0].contains("event1.ics"));
        }
        _ => panic!("Expected CalendarMultiget"),
    }
}

#[test]
fn test_parse_calendar_query_with_time_range() {
    let xml = br#"<?xml version="1.0" encoding="utf-8"?>
    <C:calendar-query xmlns:D="DAV:" xmlns:C="urn:ietf:params:xml:ns:caldav">
        <D:prop>
            <D:getetag/>
            <C:calendar-data/>
        </D:prop>
        <C:filter>
            <C:comp-filter name="VCALENDAR">
                <C:comp-filter name="VEVENT">
                    <C:time-range start="20260301T000000Z" end="20260401T000000Z"/>
                </C:comp-filter>
            </C:comp-filter>
        </C:filter>
    </C:calendar-query>"#;
    let result = parse_report(xml).unwrap();
    match result {
        ReportRequest::CalendarQuery { props, time_range } => {
            assert_eq!(props.len(), 2);
            let (start, end) = time_range.unwrap();
            assert_eq!(start, "20260301T000000Z");
            assert_eq!(end, "20260401T000000Z");
        }
        _ => panic!("Expected CalendarQuery"),
    }
}

#[test]
fn test_parse_sync_collection() {
    let xml = br#"<?xml version="1.0" encoding="utf-8"?>
    <D:sync-collection xmlns:D="DAV:" xmlns:C="urn:ietf:params:xml:ns:caldav">
        <D:sync-token>sync-abc123</D:sync-token>
        <D:prop>
            <D:getetag/>
        </D:prop>
    </D:sync-collection>"#;
    let result = parse_report(xml).unwrap();
    match result {
        ReportRequest::SyncCollection { props, sync_token } => {
            assert_eq!(props.len(), 1);
            assert_eq!(sync_token, "sync-abc123");
        }
        _ => panic!("Expected SyncCollection"),
    }
}

#[test]
fn test_parse_apple_style_namespace_prefixes() {
    let xml = br#"<?xml version="1.0" encoding="utf-8"?>
    <A:propfind xmlns:A="DAV:" xmlns:B="urn:ietf:params:xml:ns:caldav" xmlns:C="http://calendarserver.org/ns/" xmlns:D="http://apple.com/ns/ical/">
        <A:prop>
            <A:displayname/>
            <A:resourcetype/>
            <B:calendar-home-set/>
            <B:calendar-user-address-set/>
            <C:getctag/>
            <D:calendar-color/>
            <D:calendar-order/>
        </A:prop>
    </A:propfind>"#;
    let result = parse_propfind(xml);
    match result {
        PropfindRequest::Props(props) => {
            assert_eq!(props.len(), 7);
            assert_eq!(props[0].local_name, "displayname");
            assert_eq!(props[0].namespace, "DAV:");
            assert_eq!(props[1].local_name, "resourcetype");
            assert_eq!(props[1].namespace, "DAV:");
            assert_eq!(props[2].local_name, "calendar-home-set");
            assert_eq!(props[2].namespace, "urn:ietf:params:xml:ns:caldav");
            assert_eq!(props[3].local_name, "calendar-user-address-set");
            assert_eq!(props[3].namespace, "urn:ietf:params:xml:ns:caldav");
            assert_eq!(props[4].local_name, "getctag");
            assert_eq!(props[4].namespace, "http://calendarserver.org/ns/");
            assert_eq!(props[5].local_name, "calendar-color");
            assert_eq!(props[5].namespace, "http://apple.com/ns/ical/");
            assert_eq!(props[6].local_name, "calendar-order");
            assert_eq!(props[6].namespace, "http://apple.com/ns/ical/");
        }
        _ => panic!("Expected Props variant"),
    }
}

#[test]
fn test_parse_propfind_with_mixed_namespaces() {
    let xml = br#"<?xml version="1.0" encoding="utf-8"?>
    <A:propfind xmlns:A="DAV:" xmlns:B="urn:ietf:params:xml:ns:caldav" xmlns:C="http://calendarserver.org/ns/">
        <A:prop>
            <A:current-user-principal/>
            <A:principal-URL/>
            <A:resource-id/>
            <B:schedule-inbox-URL/>
            <B:schedule-outbox-URL/>
            <C:email-address-set/>
            <C:notification-URL/>
        </A:prop>
    </A:propfind>"#;
    let result = parse_propfind(xml);
    match result {
        PropfindRequest::Props(props) => {
            assert_eq!(props.len(), 7);
            assert_eq!(props[0].namespace, "DAV:");
            assert_eq!(props[0].local_name, "current-user-principal");
            assert_eq!(props[3].namespace, "urn:ietf:params:xml:ns:caldav");
            assert_eq!(props[3].local_name, "schedule-inbox-URL");
            assert_eq!(props[5].namespace, "http://calendarserver.org/ns/");
            assert_eq!(props[5].local_name, "email-address-set");
        }
        _ => panic!("Expected Props variant"),
    }
}

#[test]
fn test_filter_props_allprop_returns_all() {
    let available = vec![
        PropValue {
            name: "displayname".to_string(),
            namespace: DAV_NS.to_string(),
            value: PropContent::Text("Test".to_string()),
        },
        PropValue {
            name: "resourcetype".to_string(),
            namespace: DAV_NS.to_string(),
            value: PropContent::Empty,
        },
    ];

    let (found, not_found) = filter_props(&PropfindRequest::AllProp, available);
    assert_eq!(found.len(), 2);
    assert!(not_found.is_empty());
}

#[test]
fn test_filter_props_specific_found_and_not_found() {
    let available = vec![
        PropValue {
            name: "displayname".to_string(),
            namespace: DAV_NS.to_string(),
            value: PropContent::Text("Test".to_string()),
        },
        PropValue {
            name: "resourcetype".to_string(),
            namespace: DAV_NS.to_string(),
            value: PropContent::Empty,
        },
    ];

    let request = PropfindRequest::Props(vec![
        PropRequest {
            local_name: "displayname".to_string(),
            namespace: DAV_NS.to_string(),
        },
        PropRequest {
            local_name: "quota-available-bytes".to_string(),
            namespace: DAV_NS.to_string(),
        },
        PropRequest {
            local_name: "calendar-color".to_string(),
            namespace: APPLE_NS.to_string(),
        },
    ]);

    let (found, not_found) = filter_props(&request, available);
    assert_eq!(found.len(), 1);
    assert_eq!(found[0].name, "displayname");
    assert_eq!(not_found.len(), 2);
    assert!(not_found.contains(&"D:quota-available-bytes".to_string()));
    assert!(not_found.contains(&"A:calendar-color".to_string()));
}

#[test]
fn test_filter_props_namespace_aware() {
    let available = vec![PropValue {
        name: "calendar-color".to_string(),
        namespace: APPLE_NS.to_string(),
        value: PropContent::Text("#FF0000".to_string()),
    }];

    let request = PropfindRequest::Props(vec![PropRequest {
        local_name: "calendar-color".to_string(),
        namespace: CALDAV_NS.to_string(),
    }]);

    let (found, not_found) = filter_props(&request, available);
    assert_eq!(found.len(), 0);
    assert_eq!(not_found.len(), 1);
    assert_eq!(not_found[0], "C:calendar-color");
}

#[test]
fn test_filter_props_propname_returns_empty_values() {
    let available = vec![PropValue {
        name: "displayname".to_string(),
        namespace: DAV_NS.to_string(),
        value: PropContent::Text("Test".to_string()),
    }];

    let (found, not_found) = filter_props(&PropfindRequest::PropName, available);
    assert_eq!(found.len(), 1);
    assert_eq!(found[0].name, "displayname");
    assert!(matches!(found[0].value, PropContent::Empty));
    assert!(not_found.is_empty());
}

// ---- further cases ----

#[test]
fn text_values_are_escaped_and_xml_values_are_not() {
    let mut builder = MultistatusBuilder::new();
    builder.add_response(
        "/a&b/",
        vec![
            PropValue {
                name: "displayname".to_string(),
                namespace: DAV_NS.to_string(),
                value: PropContent::Text("<Tom & \"Jerry\">".to_string()),
            },
            PropValue {
                name: "resourcetype".to_string(),
                namespace: DAV_NS.to_string(),
                value: PropContent::Xml("<D:collection/>".to_string()),
            },
        ],
        vec![],
    );
    let xml = String::from_utf8(builder.build()).unwrap();
    assert!(xml.contains("<D:href>/a&amp;b/</D:href>"));
    assert!(xml.contains("<D:displayname>&lt;Tom &amp; &quot;Jerry&quot;&gt;</D:displayname>"));
    assert!(xml.contains("<D:resourcetype><D:collection/></D:resourcetype>"));
    assert!(xml.ends_with("</D:multistatus>"));
}

#[test]
fn sync_token_element_and_uri_wrapping() {
    let mut builder = MultistatusBuilder::new();
    builder.add_sync_token(&ensure_sync_token_uri("sync-1"));
    let xml = String::from_utf8(builder.build()).unwrap();
    assert!(xml.contains("<D:sync-token>data:,sync-1</D:sync-token>"));
    assert_eq!(ensure_sync_token_uri("data:,sync-1"), "data:,sync-1");
    assert_eq!(ensure_sync_token_uri(&ensure_sync_token_uri("x")), "data:,x");
}

#[test]
fn unknown_namespace_prefix_falls_back_to_dav() {
    assert_eq!(ns_prefix("urn:other"), "D");
    assert_eq!(ns_prefix(CS_NS), "CS");
}

#[test]
fn propfind_propname_and_bad_xml() {
    let xml = br#"<D:propfind xmlns:D="DAV:"><D:propname/></D:propfind>"#;
    assert!(matches!(parse_propfind(xml), PropfindRequest::PropName));
    // A list that never closes properly still yields AllProp on a read error.
    let broken = br#"<D:propfind xmlns:D="DAV:"><D:prop><D:displayname/></D:wrong>"#;
    assert!(matches!(parse_propfind(broken), PropfindRequest::AllProp));
}

#[test]
fn report_without_known_root_is_none() {
    assert!(parse_report(b"<D:foo xmlns:D=\"DAV:\"/>").is_none());
}
