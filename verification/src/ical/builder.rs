//! Generation of a minimal VCALENDAR wrapping one VEVENT.
use vstd::prelude::*;

use crate::ids::{is_uuid_text, uuid_v4_text};
use crate::text::chars_eq;
use crate::text::chars_of;

verus! {

/// The UTC offset of a time zone's standard (winter) period.
pub open spec fn std_offset(tz: Seq<char>) -> Seq<char> {
    if tz == "America/Los_Angeles"@ || tz == "America/Vancouver"@ {
        "-0800"@
    } else if tz == "America/Denver"@ || tz == "America/Phoenix"@ {
        "-0700"@
    } else if tz == "America/Chicago"@ {
        "-0600"@
    } else if tz == "America/New_York"@ || tz == "America/Toronto"@ {
        "-0500"@
    } else if tz == "Europe/London"@ {
        "+0000"@
    } else if tz == "Europe/Paris"@ || tz == "Europe/Berlin"@ || tz == "Europe/Rome"@ {
        "+0100"@
    } else if tz == "Asia/Tokyo"@ {
        "+0900"@
    } else if tz == "Australia/Sydney"@ {
        "+1100"@
    } else {
        "+0000"@
    }
}

/// The UTC offset of a time zone's daylight-saving (summer) period. Zones
/// without daylight saving (Tokyo, Phoenix) keep their own standard offset.
pub open spec fn dst_offset(tz: Seq<char>) -> Seq<char> {
    if tz == "America/Los_Angeles"@ || tz == "America/Vancouver"@ {
        "-0700"@
    } else if tz == "America/Denver"@ {
        "-0600"@
    } else if tz == "America/Phoenix"@ {
        "-0700"@
    } else if tz == "America/Chicago"@ {
        "-0500"@
    } else if tz == "America/New_York"@ || tz == "America/Toronto"@ {
        "-0400"@
    } else if tz == "Europe/London"@ {
        "+0100"@
    } else if tz == "Europe/Paris"@ || tz == "Europe/Berlin"@ || tz == "Europe/Rome"@ {
        "+0200"@
    } else if tz == "Asia/Tokyo"@ {
        "+0900"@
    } else if tz == "Australia/Sydney"@ {
        "+1100"@
    } else {
        "+0000"@
    }
}

/// The offsets of the zones the builder knows, as the IANA zone table
/// gives them: standard (winter) and daylight (summer) offsets from UTC.
/// Zones without daylight saving (Phoenix, Tokyo) keep their standard
/// offset in summer; any other zone is treated as UTC.
pub proof fn lemma_known_zone_offsets()
    ensures
        std_offset("America/Los_Angeles"@) == "-0800"@ && dst_offset("America/Los_Angeles"@) == "-0700"@,
        std_offset("America/Vancouver"@) == "-0800"@ && dst_offset("America/Vancouver"@) == "-0700"@,
        std_offset("America/Denver"@) == "-0700"@ && dst_offset("America/Denver"@) == "-0600"@,
        std_offset("America/Phoenix"@) == "-0700"@ && dst_offset("America/Phoenix"@) == "-0700"@,
        std_offset("America/Chicago"@) == "-0600"@ && dst_offset("America/Chicago"@) == "-0500"@,
        std_offset("America/New_York"@) == "-0500"@ && dst_offset("America/New_York"@) == "-0400"@,
        std_offset("America/Toronto"@) == "-0500"@ && dst_offset("America/Toronto"@) == "-0400"@,
        std_offset("Europe/London"@) == "+0000"@ && dst_offset("Europe/London"@) == "+0100"@,
        std_offset("Europe/Paris"@) == "+0100"@ && dst_offset("Europe/Paris"@) == "+0200"@,
        std_offset("Europe/Berlin"@) == "+0100"@ && dst_offset("Europe/Berlin"@) == "+0200"@,
        std_offset("Europe/Rome"@) == "+0100"@ && dst_offset("Europe/Rome"@) == "+0200"@,
        std_offset("Asia/Tokyo"@) == "+0900"@ && dst_offset("Asia/Tokyo"@) == "+0900"@,
        std_offset("Australia/Sydney"@) == "+1100"@ && dst_offset("Australia/Sydney"@) == "+1100"@,
        forall|tz: Seq<char>|
            !(tz == "America/Los_Angeles"@ || tz == "America/Vancouver"@ || tz == "America/Denver"@
                || tz == "America/Phoenix"@ || tz == "America/Chicago"@ || tz == "America/New_York"@
                || tz == "America/Toronto"@ || tz == "Europe/London"@ || tz == "Europe/Paris"@
                || tz == "Europe/Berlin"@ || tz == "Europe/Rome"@ || tz == "Asia/Tokyo"@
                || tz == "Australia/Sydney"@) ==> #[trigger] std_offset(tz) == "+0000"@ && dst_offset(tz)
                == "+0000"@,
{
    reveal_strlit("America/Los_Angeles");
    reveal_strlit("America/Vancouver");
    reveal_strlit("America/Denver");
    reveal_strlit("America/Phoenix");
    reveal_strlit("America/Chicago");
    reveal_strlit("America/New_York");
    reveal_strlit("America/Toronto");
    reveal_strlit("Europe/London");
    reveal_strlit("Europe/Paris");
    reveal_strlit("Europe/Berlin");
    reveal_strlit("Europe/Rome");
    reveal_strlit("Asia/Tokyo");
    reveal_strlit("Australia/Sydney");
    assert("America/Los_Angeles"@.len() != "America/Vancouver"@.len());
    assert("America/Los_Angeles"@.len() != "America/Denver"@.len());
    assert("America/Los_Angeles"@.len() != "America/Phoenix"@.len());
    assert("America/Los_Angeles"@.len() != "America/Chicago"@.len());
    assert("America/Los_Angeles"@.len() != "America/New_York"@.len());
    assert("America/Los_Angeles"@.len() != "America/Toronto"@.len());
    assert("America/Los_Angeles"@.len() != "Europe/London"@.len());
    assert("America/Los_Angeles"@.len() != "Europe/Paris"@.len());
    assert("America/Los_Angeles"@.len() != "Europe/Berlin"@.len());
    assert("America/Los_Angeles"@.len() != "Europe/Rome"@.len());
    assert("America/Los_Angeles"@.len() != "Asia/Tokyo"@.len());
    assert("America/Los_Angeles"@.len() != "Australia/Sydney"@.len());
    assert("America/Vancouver"@.len() != "America/Denver"@.len());
    assert("America/Vancouver"@.len() != "America/Phoenix"@.len());
    assert("America/Vancouver"@.len() != "America/Chicago"@.len());
    assert("America/Vancouver"@.len() != "America/New_York"@.len());
    assert("America/Vancouver"@.len() != "America/Toronto"@.len());
    assert("America/Vancouver"@.len() != "Europe/London"@.len());
    assert("America/Vancouver"@.len() != "Europe/Paris"@.len());
    assert("America/Vancouver"@.len() != "Europe/Berlin"@.len());
    assert("America/Vancouver"@.len() != "Europe/Rome"@.len());
    assert("America/Vancouver"@.len() != "Asia/Tokyo"@.len());
    assert("America/Vancouver"@.len() != "Australia/Sydney"@.len());
    assert("America/Denver"@.len() != "America/Phoenix"@.len());
    assert("America/Denver"@.len() != "America/Chicago"@.len());
    assert("America/Denver"@.len() != "America/New_York"@.len());
    assert("America/Denver"@.len() != "America/Toronto"@.len());
    assert("America/Denver"@.len() != "Europe/London"@.len());
    assert("America/Denver"@.len() != "Europe/Paris"@.len());
    assert("America/Denver"@.len() != "Europe/Berlin"@.len());
    assert("America/Denver"@.len() != "Europe/Rome"@.len());
    assert("America/Denver"@.len() != "Asia/Tokyo"@.len());
    assert("America/Denver"@.len() != "Australia/Sydney"@.len());
    assert("America/Phoenix"@[8] != "America/Chicago"@[8]);
    assert("America/Phoenix"@.len() != "America/New_York"@.len());
    assert("America/Phoenix"@[8] != "America/Toronto"@[8]);
    assert("America/Phoenix"@.len() != "Europe/London"@.len());
    assert("America/Phoenix"@.len() != "Europe/Paris"@.len());
    assert("America/Phoenix"@.len() != "Europe/Berlin"@.len());
    assert("America/Phoenix"@.len() != "Europe/Rome"@.len());
    assert("America/Phoenix"@.len() != "Asia/Tokyo"@.len());
    assert("America/Phoenix"@.len() != "Australia/Sydney"@.len());
    assert("America/Chicago"@.len() != "America/New_York"@.len());
    assert("America/Chicago"@[8] != "America/Toronto"@[8]);
    assert("America/Chicago"@.len() != "Europe/London"@.len());
    assert("America/Chicago"@.len() != "Europe/Paris"@.len());
    assert("America/Chicago"@.len() != "Europe/Berlin"@.len());
    assert("America/Chicago"@.len() != "Europe/Rome"@.len());
    assert("America/Chicago"@.len() != "Asia/Tokyo"@.len());
    assert("America/Chicago"@.len() != "Australia/Sydney"@.len());
    assert("America/New_York"@.len() != "America/Toronto"@.len());
    assert("America/New_York"@.len() != "Europe/London"@.len());
    assert("America/New_York"@.len() != "Europe/Paris"@.len());
    assert("America/New_York"@.len() != "Europe/Berlin"@.len());
    assert("America/New_York"@.len() != "Europe/Rome"@.len());
    assert("America/New_York"@.len() != "Asia/Tokyo"@.len());
    assert("America/New_York"@[1] != "Australia/Sydney"@[1]);
    assert("America/Toronto"@.len() != "Europe/London"@.len());
    assert("America/Toronto"@.len() != "Europe/Paris"@.len());
    assert("America/Toronto"@.len() != "Europe/Berlin"@.len());
    assert("America/Toronto"@.len() != "Europe/Rome"@.len());
    assert("America/Toronto"@.len() != "Asia/Tokyo"@.len());
    assert("America/Toronto"@.len() != "Australia/Sydney"@.len());
    assert("Europe/London"@.len() != "Europe/Paris"@.len());
    assert("Europe/London"@[7] != "Europe/Berlin"@[7]);
    assert("Europe/London"@.len() != "Europe/Rome"@.len());
    assert("Europe/London"@.len() != "Asia/Tokyo"@.len());
    assert("Europe/London"@.len() != "Australia/Sydney"@.len());
    assert("Europe/Paris"@.len() != "Europe/Berlin"@.len());
    assert("Europe/Paris"@.len() != "Europe/Rome"@.len());
    assert("Europe/Paris"@.len() != "Asia/Tokyo"@.len());
    assert("Europe/Paris"@.len() != "Australia/Sydney"@.len());
    assert("Europe/Berlin"@.len() != "Europe/Rome"@.len());
    assert("Europe/Berlin"@.len() != "Asia/Tokyo"@.len());
    assert("Europe/Berlin"@.len() != "Australia/Sydney"@.len());
    assert("Europe/Rome"@.len() != "Asia/Tokyo"@.len());
    assert("Europe/Rome"@.len() != "Australia/Sydney"@.len());
    assert("Asia/Tokyo"@.len() != "Australia/Sydney"@.len());
}

fn is(tz: &[char], name: &str) -> (b: bool)
    ensures
        b == (tz@ == name@),
{
    let n = chars_of(name);
    chars_eq(tz, n.as_slice())
}

/// Appends `s` to `out`.
fn append(out: &mut String, s: &str)
    ensures
        final(out)@ == old(out)@ + s@,
{
    out.append(s);
}

/// Returns the TZOFFSETFROM line for the standard (winter) period of a timezone.
pub fn vtimezone_std_offset(tz: &str) -> (line: String)
    ensures
        line@ == "TZOFFSETFROM:"@ + std_offset(tz@),
{
    let t = chars_of(tz);
    let t = t.as_slice();
    let offset = if is(t, "America/Los_Angeles") || is(t, "America/Vancouver") {
        "-0800"
    } else if is(t, "America/Denver") || is(t, "America/Phoenix") {
        "-0700"
    } else if is(t, "America/Chicago") {
        "-0600"
    } else if is(t, "America/New_York") || is(t, "America/Toronto") {
        "-0500"
    } else if is(t, "Europe/London") {
        "+0000"
    } else if is(t, "Europe/Paris") || is(t, "Europe/Berlin") || is(t, "Europe/Rome") {
        "+0100"
    } else if is(t, "Asia/Tokyo") {
        "+0900"
    } else if is(t, "Australia/Sydney") {
        "+1100"
    } else {
        "+0000"
    };
    let mut line = String::new();
    append(&mut line, "TZOFFSETFROM:");
    append(&mut line, offset);
    line
}

/// Returns the TZOFFSETTO line for the daylight-saving (summer) period of a timezone.
pub fn vtimezone_dst_offset(tz: &str) -> (line: String)
    ensures
        line@ == "TZOFFSETTO:"@ + dst_offset(tz@),
{
    let t = chars_of(tz);
    let t = t.as_slice();
    let offset = if is(t, "America/Los_Angeles") || is(t, "America/Vancouver") {
        "-0700"
    } else if is(t, "America/Denver") {
        "-0600"
    } else if is(t, "America/Phoenix") {
        "-0700"
    } else if is(t, "America/Chicago") {
        "-0500"
    } else if is(t, "America/New_York") || is(t, "America/Toronto") {
        "-0400"
    } else if is(t, "Europe/London") {
        "+0100"
    } else if is(t, "Europe/Paris") || is(t, "Europe/Berlin") || is(t, "Europe/Rome") {
        "+0200"
    } else if is(t, "Asia/Tokyo") {
        "+0900"
    } else if is(t, "Australia/Sydney") {
        "+1100"
    } else {
        "+0000"
    };
    let mut line = String::new();
    append(&mut line, "TZOFFSETTO:");
    append(&mut line, offset);
    line
}

/// The view of an optional string slice.
pub open spec fn opt_str_view(o: Option<&str>) -> Option<Seq<char>> {
    match o {
        Some(s) => Some(s@),
        None => None,
    }
}

/// The lines of the minimal VTIMEZONE component for `tz`.
pub open spec fn vtimezone_lines(tz: Seq<char>) -> Seq<Seq<char>> {
    seq![
        "BEGIN:VTIMEZONE"@,
        "TZID:"@ + tz,
        "BEGIN:STANDARD"@,
        "DTSTART:19671029T020000"@,
        "RRULE:FREQ=YEARLY;BYDAY=1SU;BYMONTH=11"@,
        "TZOFFSETFROM:"@ + std_offset(tz),
        "TZOFFSETTO:"@ + dst_offset(tz),
        "END:STANDARD"@,
        "BEGIN:DAYLIGHT"@,
        "DTSTART:20070311T020000"@,
        "RRULE:FREQ=YEARLY;BYDAY=2SU;BYMONTH=3"@,
        "TZOFFSETTO:"@ + dst_offset(tz),
        "TZOFFSETFROM:"@ + std_offset(tz),
        "END:DAYLIGHT"@,
        "END:VTIMEZONE"@,
    ]
}

/// The lines of the VCALENDAR that `build_vevent` writes, with DTSTAMP `stamp`.
pub open spec fn vevent_lines(
    uid: Seq<char>,
    summary: Seq<char>,
    dtstart: Seq<char>,
    dtend: Seq<char>,
    description: Option<Seq<char>>,
    location: Option<Seq<char>>,
    timezone: Option<Seq<char>>,
    stamp: Seq<char>,
) -> Seq<Seq<char>> {
    seq!["BEGIN:VCALENDAR"@, "VERSION:2.0"@, "PRODID:-//CalDAV Server//EN"@] + (match timezone {
        Some(tz) => vtimezone_lines(tz),
        None => seq![],
    }) + seq!["BEGIN:VEVENT"@, "UID:"@ + uid, "DTSTAMP:"@ + stamp] + (match timezone {
        Some(tz) => seq![
            "DTSTART;TZID="@ + tz + ":"@ + dtstart,
            "DTEND;TZID="@ + tz + ":"@ + dtend,
        ],
        None => seq!["DTSTART:"@ + dtstart, "DTEND:"@ + dtend],
    }) + seq!["SUMMARY:"@ + summary] + (match description {
        Some(d) => seq!["DESCRIPTION:"@ + d],
        None => seq![],
    }) + (match location {
        Some(l) => seq!["LOCATION:"@ + l],
        None => seq![],
    }) + seq!["END:VEVENT"@, "END:VCALENDAR"@]
}

/// The lines joined with CRLF, each line followed by CRLF.
pub open spec fn crlf_join(lines: Seq<Seq<char>>) -> Seq<char>
    decreases lines.len(),
{
    if lines.len() == 0 {
        seq![]
    } else {
        crlf_join(lines.drop_last()) + lines.last() + "\r\n"@
    }
}

/// Appends `line` and a CRLF.
fn add_line(out: &mut String, Ghost(lines): Ghost<Seq<Seq<char>>>, line: &str)
    requires
        old(out)@ == crlf_join(lines),
    ensures
        final(out)@ == crlf_join(lines.push(line@)),
{
    append(out, line);
    append(out, "\r\n");
    assert(lines.push(line@).drop_last() =~= lines);
}

/// Builds a line from a prefix and a value.
fn two(a: &str, b: &str) -> (s: String)
    ensures
        s@ == a@ + b@,
{
    let mut s = String::new();
    append(&mut s, a);
    append(&mut s, b);
    s
}

/// The VCALENDAR text that `build_vevent` writes when the current time,
/// formatted `%Y%m%dT%H%M%SZ`, is `stamp`.
#[verifier::spinoff_prover]
pub fn build_vevent_at(
    uid: &str,
    summary: &str,
    dtstart: &str,
    dtend: &str,
    description: Option<&str>,
    location: Option<&str>,
    timezone: Option<&str>,
    stamp: &str,
) -> (ical: String)
    ensures
        ical@ == crlf_join(
            vevent_lines(
                uid@,
                summary@,
                dtstart@,
                dtend@,
                opt_str_view(description),
                opt_str_view(location),
                opt_str_view(timezone),
                stamp@,
            ),
        ),
{
    let mut out = String::new();
    let ghost mut ls: Seq<Seq<char>> = seq![];
    add_line(&mut out, Ghost(ls), "BEGIN:VCALENDAR");
    proof { ls = ls.push("BEGIN:VCALENDAR"@); }
    add_line(&mut out, Ghost(ls), "VERSION:2.0");
    proof { ls = ls.push("VERSION:2.0"@); }
    add_line(&mut out, Ghost(ls), "PRODID:-//CalDAV Server//EN");
    proof { ls = ls.push("PRODID:-//CalDAV Server//EN"@); }
    let ghost head = ls;
    if let Some(tz) = timezone {
        let stdl = vtimezone_std_offset(tz);
        let dstl = vtimezone_dst_offset(tz);
        let tzid = two("TZID:", tz);
        add_line(&mut out, Ghost(ls), "BEGIN:VTIMEZONE");
        proof { ls = ls.push("BEGIN:VTIMEZONE"@); }
        add_line(&mut out, Ghost(ls), tzid.as_str());
        proof { ls = ls.push(tzid@); }
        add_line(&mut out, Ghost(ls), "BEGIN:STANDARD");
        proof { ls = ls.push("BEGIN:STANDARD"@); }
        add_line(&mut out, Ghost(ls), "DTSTART:19671029T020000");
        proof { ls = ls.push("DTSTART:19671029T020000"@); }
        add_line(&mut out, Ghost(ls), "RRULE:FREQ=YEARLY;BYDAY=1SU;BYMONTH=11");
        proof { ls = ls.push("RRULE:FREQ=YEARLY;BYDAY=1SU;BYMONTH=11"@); }
        add_line(&mut out, Ghost(ls), stdl.as_str());
        proof { ls = ls.push(stdl@); }
        add_line(&mut out, Ghost(ls), dstl.as_str());
        proof { ls = ls.push(dstl@); }
        add_line(&mut out, Ghost(ls), "END:STANDARD");
        proof { ls = ls.push("END:STANDARD"@); }
        add_line(&mut out, Ghost(ls), "BEGIN:DAYLIGHT");
        proof { ls = ls.push("BEGIN:DAYLIGHT"@); }
        add_line(&mut out, Ghost(ls), "DTSTART:20070311T020000");
        proof { ls = ls.push("DTSTART:20070311T020000"@); }
        add_line(&mut out, Ghost(ls), "RRULE:FREQ=YEARLY;BYDAY=2SU;BYMONTH=3");
        proof { ls = ls.push("RRULE:FREQ=YEARLY;BYDAY=2SU;BYMONTH=3"@); }
        add_line(&mut out, Ghost(ls), dstl.as_str());
        proof { ls = ls.push(dstl@); }
        add_line(&mut out, Ghost(ls), stdl.as_str());
        proof { ls = ls.push(stdl@); }
        add_line(&mut out, Ghost(ls), "END:DAYLIGHT");
        proof { ls = ls.push("END:DAYLIGHT"@); }
        add_line(&mut out, Ghost(ls), "END:VTIMEZONE");
        proof { ls = ls.push("END:VTIMEZONE"@); }
        assert(ls =~= head + vtimezone_lines(tz@));
    } else {
        assert(ls =~= head + seq![]);
    }
    let ghost with_tz = ls;
    let uid_line = two("UID:", uid);
    let stamp_line = two("DTSTAMP:", stamp);
    add_line(&mut out, Ghost(ls), "BEGIN:VEVENT");
    proof { ls = ls.push("BEGIN:VEVENT"@); }
    add_line(&mut out, Ghost(ls), uid_line.as_str());
    proof { ls = ls.push(uid_line@); }
    add_line(&mut out, Ghost(ls), stamp_line.as_str());
    proof { ls = ls.push(stamp_line@); }
    let ghost ev = ls;
    if let Some(tz) = timezone {
        let mut s = two("DTSTART;TZID=", tz);
        append(&mut s, ":");
        append(&mut s, dtstart);
        let mut e = two("DTEND;TZID=", tz);
        append(&mut e, ":");
        append(&mut e, dtend);
        add_line(&mut out, Ghost(ls), s.as_str());
        proof { ls = ls.push(s@); }
        add_line(&mut out, Ghost(ls), e.as_str());
        proof { ls = ls.push(e@); }
    } else {
        let s = two("DTSTART:", dtstart);
        let e = two("DTEND:", dtend);
        add_line(&mut out, Ghost(ls), s.as_str());
        proof { ls = ls.push(s@); }
        add_line(&mut out, Ghost(ls), e.as_str());
        proof { ls = ls.push(e@); }
    }
    let summary_line = two("SUMMARY:", summary);
    add_line(&mut out, Ghost(ls), summary_line.as_str());
    proof { ls = ls.push(summary_line@); }
    let ghost before_desc = ls;
    if let Some(d) = description {
        let l = two("DESCRIPTION:", d);
        add_line(&mut out, Ghost(ls), l.as_str());
        proof { ls = ls.push(l@); }
    }
    let ghost before_loc = ls;
    if let Some(l) = location {
        let line = two("LOCATION:", l);
        add_line(&mut out, Ghost(ls), line.as_str());
        proof { ls = ls.push(line@); }
    }
    add_line(&mut out, Ghost(ls), "END:VEVENT");
    proof { ls = ls.push("END:VEVENT"@); }
    add_line(&mut out, Ghost(ls), "END:VCALENDAR");
    proof { ls = ls.push("END:VCALENDAR"@); }
    assert(ls =~= vevent_lines(
        uid@,
        summary@,
        dtstart@,
        dtend@,
        opt_str_view(description),
        opt_str_view(location),
        opt_str_view(timezone),
        stamp@,
    ));
    out
}

/// An ASCII decimal digit.
pub open spec fn is_ascii_digit(c: char) -> bool {
    '0' <= c <= '9'
}

/// The shape of a UTC time in iCalendar basic format as `%Y%m%dT%H%M%SZ`
/// writes it: the year (four digits, or `+` and five or more digits past
/// 9999), two digits each of month and day, `T`, two digits each of hour,
/// minute and second, and `Z`.
pub open spec fn is_utc_stamp(s: Seq<char>) -> bool {
    let n = s.len();
    &&& (n == 16 || (n >= 18 && s[0] == '+'))
    &&& s[n - 8] == 'T'
    &&& s[n - 1] == 'Z'
    &&& forall|i: int|
        0 <= i < n - 1 && i != n - 8 && !(i == 0 && n > 16) ==> is_ascii_digit(#[trigger] s[i])
}

/// `chrono::Utc::now().format("%Y%m%dT%H%M%SZ").to_string()`: the current
/// UTC time in iCalendar basic format. `Utc::now` counts from the Unix
/// epoch, so the year is at least 1970; `%Y` writes a year up to 9999 as
/// four digits and a later one with a `+` sign, and the other fields as two
/// zero-padded digits. Which time comes back is left open.
#[verifier::external_body]
fn utc_now_stamp() -> (stamp: String)
    ensures
        is_utc_stamp(stamp@),
{
    chrono::Utc::now().format("%Y%m%dT%H%M%SZ").to_string()
}

/// Build a minimal VCALENDAR wrapping a VEVENT.
///
/// If `timezone` is `Some("America/Los_Angeles")` (or any IANA tz name), the
/// DTSTART/DTEND lines are emitted as `DTSTART;TZID=…` and a minimal
/// VTIMEZONE component is included.  When `timezone` is `None` the values are
/// written verbatim (caller is responsible for supplying a UTC `Z`-suffixed
/// value or any other valid iCal datetime string). DTSTAMP is the current time.
pub fn build_vevent(
    uid: &str,
    summary: &str,
    dtstart: &str,
    dtend: &str,
    description: Option<&str>,
    location: Option<&str>,
    timezone: Option<&str>,
) -> (ical: String)
    ensures
        exists|stamp: Seq<char>|
            is_utc_stamp(stamp) && (forall|i: int| 0 <= i < stamp.len() ==> stamp[i] != '\n')
                && ical@ == crlf_join(
                #[trigger] vevent_lines(
                    uid@,
                    summary@,
                    dtstart@,
                    dtend@,
                    opt_str_view(description),
                    opt_str_view(location),
                    opt_str_view(timezone),
                    stamp,
                ),
            ),
{
    let stamp = utc_now_stamp();
    assert forall|i: int| 0 <= i < stamp@.len() implies stamp@[i] != '\n' by {
        let n = stamp@.len();
        if !(i == n - 1 || i == n - 8 || (i == 0 && n > 16)) {
            assert(is_ascii_digit(stamp@[i]));
        }
    }
    build_vevent_at(uid, summary, dtstart, dtend, description, location, timezone, stamp.as_str())
}

/// Generate a new unique event UID: a random UUID followed by `@caldav-server`.
pub fn generate_uid() -> (uid: String)
    ensures
        exists|u: Seq<char>| is_uuid_text(u) && uid@ == u + "@caldav-server"@,
{
    let u = uuid_v4_text();
    let mut uid = String::new();
    append(&mut uid, u.as_str());
    append(&mut uid, "@caldav-server");
    uid
}

} // verus!
