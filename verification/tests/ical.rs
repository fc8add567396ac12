use caldav_server::ical::builder::{build_vevent, generate_uid, vtimezone_dst_offset, vtimezone_std_offset};
use caldav_server::ical::parser::{extract_fields, extract_property, unfold_lines};

#[test]
fn test_extract_simple_event() {
    let ical = "BEGIN:VCALENDAR\r\n\
                 VERSION:2.0\r\n\
                 BEGIN:VEVENT\r\n\
                 UID:event-123@example.com\r\n\
                 DTSTART:20260301T090000Z\r\n\
                 DTEND:20260301T100000Z\r\n\
                 SUMMARY:Team Meeting\r\n\
                 END:VEVENT\r\n\
                 END:VCALENDAR";

    let fields = extract_fields(ical);
    assert_eq!(fields.uid.as_deref(), Some("event-123@example.com"));
    assert_eq!(fields.dtstart.as_deref(), Some("20260301T090000Z"));
    assert_eq!(fields.dtend.as_deref(), Some("20260301T100000Z"));
    assert_eq!(fields.summary.as_deref(), Some("Team Meeting"));
    assert_eq!(fields.component_type, "VEVENT");
}

#[test]
fn test_extract_with_parameters() {
    let ical = "BEGIN:VCALENDAR\r\n\
                 BEGIN:VEVENT\r\n\
                 UID:event-456@example.com\r\n\
                 DTSTART;TZID=America/New_York:20260301T090000\r\n\
                 DTEND;TZID=America/New_York:20260301T100000\r\n\
                 SUMMARY;LANGUAGE=en:Lunch Break\r\n\
                 END:VEVENT\r\n\
                 END:VCALENDAR";

    let fields = extract_fields(ical);
    assert_eq!(fields.uid.as_deref(), Some("event-456@example.com"));
    assert_eq!(fields.dtstart.as_deref(), Some("20260301T090000"));
    assert_eq!(fields.summary.as_deref(), Some("Lunch Break"));
}

#[test]
fn test_extract_vtodo() {
    let ical = "BEGIN:VCALENDAR\r\n\
                 BEGIN:VTODO\r\n\
                 UID:todo-1@example.com\r\n\
                 DUE:20260315T170000Z\r\n\
                 SUMMARY:Buy groceries\r\n\
                 END:VTODO\r\n\
                 END:VCALENDAR";

    let fields = extract_fields(ical);
    assert_eq!(fields.uid.as_deref(), Some("todo-1@example.com"));
    assert_eq!(fields.dtend.as_deref(), Some("20260315T170000Z"));
    assert_eq!(fields.component_type, "VTODO");
}

#[test]
fn test_unfold_lines() {
    let data = "SUMMARY:This is a long\r\n summary that wraps\r\n";
    let lines = unfold_lines(data);
    assert!(
        lines.iter().any(|l| l == "SUMMARY:This is a longsummary that wraps"),
        "Expected unfolded line, got: {:?}",
        lines
    );
}

#[test]
fn test_uid_outside_component() {
    // UID can appear at the VCALENDAR level in some implementations
    let ical = "BEGIN:VCALENDAR\r\n\
                 UID:cal-level-uid@example.com\r\n\
                 BEGIN:VEVENT\r\n\
                 DTSTART:20260301T090000Z\r\n\
                 END:VEVENT\r\n\
                 END:VCALENDAR";

    let fields = extract_fields(ical);
    assert_eq!(fields.uid.as_deref(), Some("cal-level-uid@example.com"));
}

#[test]
fn test_build_vevent() {
    let ical = build_vevent(
        "test-uid@example.com",
        "Test Event",
        "20260301T090000Z",
        "20260301T100000Z",
        Some("A description"),
        Some("Room 101"),
        None,
    );

    assert!(ical.contains("BEGIN:VCALENDAR"));
    assert!(ical.contains("END:VCALENDAR"));
    assert!(ical.contains("BEGIN:VEVENT"));
    assert!(ical.contains("UID:test-uid@example.com"));
    assert!(ical.contains("SUMMARY:Test Event"));
    assert!(ical.contains("DTSTART:20260301T090000Z"));
    assert!(ical.contains("DESCRIPTION:A description"));
    assert!(ical.contains("LOCATION:Room 101"));
    assert!(!ical.contains("VTIMEZONE"));
}

#[test]
fn test_build_vevent_minimal() {
    let ical = build_vevent(
        "min-uid@example.com",
        "Minimal",
        "20260301T090000Z",
        "20260301T100000Z",
        None,
        None,
        None,
    );

    assert!(ical.contains("UID:min-uid@example.com"));
    assert!(!ical.contains("DESCRIPTION:"));
    assert!(!ical.contains("LOCATION:"));
}

#[test]
fn test_build_vevent_with_timezone() {
    let ical = build_vevent(
        "tz-uid@example.com",
        "TZ Event",
        "20260301T090000",
        "20260301T100000",
        None,
        None,
        Some("America/Los_Angeles"),
    );

    assert!(ical.contains("BEGIN:VTIMEZONE"));
    assert!(ical.contains("TZID:America/Los_Angeles"));
    assert!(ical.contains("DTSTART;TZID=America/Los_Angeles:20260301T090000"));
    assert!(ical.contains("DTEND;TZID=America/Los_Angeles:20260301T100000"));
    assert!(!ical.contains("DTSTART:20260301")); // should not appear without TZID
}

#[test]
fn test_generate_uid() {
    let uid = generate_uid();
    assert!(uid.contains("@caldav-server"));
    assert!(uid.len() > 20);
}

#[test]
fn test_generate_uid_unique() {
    let uid1 = generate_uid();
    let uid2 = generate_uid();
    assert_ne!(uid1, uid2, "Generated UIDs should be unique");
}

#[test]
fn test_build_vevent_with_eastern_timezone() {
    let ical = build_vevent(
        "tz-east@example.com",
        "Eastern Event",
        "20260301T090000",
        "20260301T100000",
        None,
        None,
        Some("America/New_York"),
    );
    assert!(ical.contains("TZID:America/New_York"));
    assert!(ical.contains("TZOFFSETFROM:-0500"));
    assert!(ical.contains("TZOFFSETTO:-0400"));
}

#[test]
fn test_build_vevent_with_chicago_timezone() {
    let ical = build_vevent(
        "tz-chicago@example.com",
        "Chicago Event",
        "20260301T090000",
        "20260301T100000",
        None,
        None,
        Some("America/Chicago"),
    );
    assert!(ical.contains("TZID:America/Chicago"));
    assert!(ical.contains("TZOFFSETFROM:-0600"));
    assert!(ical.contains("TZOFFSETTO:-0500"));
}

#[test]
fn test_build_vevent_with_london_timezone() {
    let ical = build_vevent(
        "tz-london@example.com",
        "London Event",
        "20260601T090000",
        "20260601T100000",
        None,
        None,
        Some("Europe/London"),
    );
    assert!(ical.contains("TZID:Europe/London"));
    assert!(ical.contains("TZOFFSETFROM:+0000"));
    assert!(ical.contains("TZOFFSETTO:+0100"));
}

#[test]
fn test_build_vevent_with_paris_timezone() {
    let ical = build_vevent(
        "tz-paris@example.com",
        "Paris Event",
        "20260601T090000",
        "20260601T100000",
        None,
        None,
        Some("Europe/Paris"),
    );
    assert!(ical.contains("TZID:Europe/Paris"));
    assert!(ical.contains("TZOFFSETFROM:+0100"));
    assert!(ical.contains("TZOFFSETTO:+0200"));
}

#[test]
fn test_build_vevent_with_tokyo_timezone() {
    let ical = build_vevent(
        "tz-tokyo@example.com",
        "Tokyo Event",
        "20260601T090000",
        "20260601T100000",
        None,
        None,
        Some("Asia/Tokyo"),
    );
    assert!(ical.contains("TZID:Asia/Tokyo"));
    assert!(ical.contains("TZOFFSETFROM:+0900"));
}

#[test]
fn test_build_vevent_with_unknown_timezone() {
    let ical = build_vevent(
        "tz-unknown@example.com",
        "Unknown TZ Event",
        "20260601T090000",
        "20260601T100000",
        None,
        None,
        Some("Pacific/Fake"),
    );
    assert!(ical.contains("TZID:Pacific/Fake"));
    // Unknown TZ falls back to +0000
    assert!(ical.contains("TZOFFSETFROM:+0000"));
}

#[test]
fn test_build_vevent_with_denver_timezone() {
    let ical = build_vevent(
        "tz-denver@example.com",
        "Denver Event",
        "20260301T090000",
        "20260301T100000",
        None,
        None,
        Some("America/Denver"),
    );
    assert!(ical.contains("TZID:America/Denver"));
    assert!(ical.contains("TZOFFSETFROM:-0700"));
    assert!(ical.contains("TZOFFSETTO:-0600"));
}

#[test]
fn test_build_vevent_with_phoenix_timezone() {
    let ical = build_vevent(
        "tz-phoenix@example.com",
        "Phoenix Event",
        "20260601T090000",
        "20260601T100000",
        None,
        None,
        Some("America/Phoenix"),
    );
    assert!(ical.contains("TZID:America/Phoenix"));
    // Phoenix TZOFFSETFROM (standard offset) is -0700
    assert!(ical.contains("TZOFFSETFROM:-0700"));
}

#[test]
fn test_vevent_output_ends_with_crlf() {
    let ical = build_vevent(
        "crlf@test.com",
        "CRLF Test",
        "20260101T000000Z",
        "20260101T010000Z",
        None,
        None,
        None,
    );
    assert!(ical.ends_with("\r\n"), "iCal output must end with CRLF");
}

// ---- further cases ----

#[test]
fn built_event_reads_back_its_fields() {
    let ical = build_vevent(
        "round@example.com",
        "Round Trip",
        "20260301T090000",
        "20260301T100000",
        None,
        None,
        Some("Europe/Paris"),
    );
    let fields = extract_fields(&ical);
    assert_eq!(fields.uid.as_deref(), Some("round@example.com"));
    assert_eq!(fields.summary.as_deref(), Some("Round Trip"));
    assert_eq!(fields.dtstart.as_deref(), Some("20260301T090000"));
    assert_eq!(fields.dtend.as_deref(), Some("20260301T100000"));
    assert_eq!(fields.component_type, "VEVENT");
}

#[test]
fn extract_property_handles_parameters_and_absence() {
    assert_eq!(extract_property("SUMMARY:Hi", "SUMMARY").as_deref(), Some("Hi"));
    assert_eq!(extract_property("SUMMARY;LANGUAGE=en:Hi", "SUMMARY").as_deref(), Some("Hi"));
    assert_eq!(extract_property("SUMMARYX:Hi", "SUMMARY"), None);
    assert_eq!(extract_property("DTSTART:1", "SUMMARY"), None);
}

#[test]
fn unfold_drops_empty_lines_and_joins_tabs() {
    let lines = unfold_lines("A:1\r\n\tb\n\nC:2");
    assert_eq!(lines, vec!["A:1b".to_string(), "C:2".to_string()]);
}

#[test]
fn timezone_offsets_of_known_and_unknown_zones() {
    assert_eq!(vtimezone_std_offset("America/New_York"), "TZOFFSETFROM:-0500");
    assert_eq!(vtimezone_dst_offset("America/New_York"), "TZOFFSETTO:-0400");
    assert_eq!(vtimezone_std_offset("Nowhere/Else"), "TZOFFSETFROM:+0000");
}

#[test]
fn zones_without_daylight_saving_keep_their_offset() {
    let expected = [
        ("America/New_York", "-0400"),
        ("America/Chicago", "-0500"),
        ("America/Denver", "-0600"),
        ("Europe/London", "+0100"),
        ("Europe/Paris", "+0200"),
        ("Asia/Tokyo", "+0900"),
        ("America/Phoenix", "-0700"),
    ];
    for (tz, o) in expected {
        assert_eq!(vtimezone_dst_offset(tz), format!("TZOFFSETTO:{o}"));
    }
}

#[test]
fn crlf_and_lf_text_read_alike() {
    let crlf = "BEGIN:VEVENT\r\nUID:x\r\nSUMMARY:Long\r\n  title\r\nDTSTART:20260301T090000Z\r\nEND:VEVENT\r\n";
    let lf = crlf.replace("\r\n", "\n");
    let a = extract_fields(crlf);
    let b = extract_fields(&lf);
    assert_eq!(a.summary.as_deref(), Some("Long title"));
    assert_eq!((a.uid, a.dtstart, a.summary, a.component_type), (b.uid, b.dtstart, b.summary, b.component_type));
    assert_eq!(extract_fields("BEGIN:VEVENT\nSUMMARY:Long\n  title\nEND:VEVENT").summary.as_deref(), Some("Long title"));
    assert_eq!(
        extract_fields("BEGIN:VEVENT\r\nSUMMARY:Long\r\n  title\r\nEND:VEVENT").summary.as_deref(),
        Some("Long title")
    );
}

#[test]
fn dtstamp_is_a_utc_basic_time() {
    let ical = build_vevent("s@x", "S", "20260101T000000Z", "20260101T010000Z", None, None, None);
    let line = ical.split("\r\n").find(|l| l.starts_with("DTSTAMP:")).unwrap();
    let stamp = &line["DTSTAMP:".len()..];
    assert_eq!(stamp.len(), 16);
    assert_eq!(&stamp[8..9], "T");
    assert!(stamp.ends_with('Z'));
    assert!(stamp.chars().enumerate().all(|(i, c)| i == 8 || i == 15 || c.is_ascii_digit()));
}
