//! The computations of MKCALENDAR: the display name and color a request
//! body sets.
use vstd::prelude::*;

use super::xml::parse::tag_local;
use super::xml::scan::{
    local_name, scan_xml, unescape_text, xml_scan, xml_unescape, XmlKind, XmlTokenView,
};
use crate::text::{chars_eq, chars_of, lossy_chars, spec_utf8_lossy, utf8_lossy};

verus! {

/// The text of the first character data read inside an element whose start
/// tag has the local name `target`. A start tag with that name opens it (a
/// start tag with another name leaves it as it is), any end tag closes it;
/// empty tags and other events change nothing.
pub open spec fn value_run(tokens: Seq<XmlTokenView>, target: Seq<char>, in_target: bool) -> Option<Seq<char>>
    decreases tokens.len(),
{
    if tokens.len() == 0 {
        None
    } else {
        let t = tokens[0];
        let rest = tokens.drop_first();
        if t.kind == XmlKind::Start {
            value_run(rest, target, in_target || tag_local(t) == target)
        } else if t.kind == XmlKind::Text && in_target {
            Some(xml_unescape(t.raw_text))
        } else if t.kind == XmlKind::End {
            value_run(rest, target, false)
        } else {
            value_run(rest, target, in_target)
        }
    }
}

/// The value of the element `local_name` in an XML text, as the reader
/// (text trimmed) finds it.
pub open spec fn spec_xml_value(xml: Seq<char>, local_name: Seq<char>) -> Option<Seq<char>> {
    value_run(xml_scan(vstd::utf8::encode_utf8(xml)).tokens, local_name, false)
}

/// Simple XML value extraction by local element name.
pub fn extract_xml_value(xml: &str, local_name: &str) -> (r: Option<String>)
    ensures
        match r {
            Some(v) => spec_xml_value(xml@, local_name@) == Some(v@),
            None => spec_xml_value(xml@, local_name@) is None,
        },
{
    let scan = scan_xml(xml.as_bytes());
    let target = chars_of(local_name);
    let ghost tokens = scan@.tokens;
    let mut in_target = false;
    let mut i: usize = 0;
    assert(tokens.skip(0) =~= tokens);
    while i < scan.tokens.len()
        invariant
            tokens == scan@.tokens,
            target@ == local_name@,
            i <= tokens.len(),
            spec_xml_value(xml@, local_name@) == value_run(tokens.skip(i as int), local_name@, in_target),
        decreases tokens.len() - i,
    {
        let t = &scan.tokens[i];
        assert(tokens.skip(i as int)[0] == t@);
        assert(tokens.skip(i as int).drop_first() =~= tokens.skip(i + 1));
        match t.kind {
            XmlKind::Start => {
                let l = local_name_text(t.name.as_slice());
                if chars_eq(l.as_slice(), target.as_slice()) {
                    in_target = true;
                }
            },
            XmlKind::Text => {
                if in_target {
                    return Some(unescape_text(t.raw_text.as_slice()));
                }
            },
            XmlKind::End => {
                in_target = false;
            },
            _ => {},
        }
        i = i + 1;
    }
    None
}

fn local_name_text(name: &[u8]) -> (v: Vec<char>)
    ensures
        v@ == spec_utf8_lossy(super::xml::scan::spec_local_name(name@)),
{
    let l = local_name(name);
    lossy_chars(l.as_slice())
}

/// The value of the element `local_name` in a request body: none for an
/// empty body, otherwise what the reader finds in the body's text (invalid
/// UTF-8 replaced).
pub open spec fn spec_body_value(body: Seq<u8>, local_name: Seq<char>) -> Option<Seq<char>> {
    if body.len() == 0 {
        None
    } else {
        spec_xml_value(spec_utf8_lossy(body), local_name)
    }
}

/// The value of a named element of a body (see `spec_body_value`).
pub fn body_value(body: &[u8], local_name: &str) -> (r: Option<String>)
    ensures
        match r {
            Some(v) => spec_body_value(body@, local_name@) == Some(v@),
            None => spec_body_value(body@, local_name@) is None,
        },
{
    if body.len() == 0 {
        return None;
    }
    let text = utf8_lossy(body);
    extract_xml_value(text.as_str(), local_name)
}

/// Extract displayname from MKCALENDAR XML body.
pub fn extract_displayname(body: &[u8]) -> (r: Option<String>)
    ensures
        match r {
            Some(v) => spec_body_value(body@, "displayname"@) == Some(v@),
            None => spec_body_value(body@, "displayname"@) is None,
        },
{
    body_value(body, "displayname")
}

/// Extract calendar-color from MKCALENDAR XML body.
pub fn extract_calendar_color(body: &[u8]) -> (r: Option<String>)
    ensures
        match r {
            Some(v) => spec_body_value(body@, "calendar-color"@) == Some(v@),
            None => spec_body_value(body@, "calendar-color"@) is None,
        },
{
    body_value(body, "calendar-color")
}

/// The display name and color a new calendar gets: those the body sets,
/// else the calendar's id and `#0E61B9`.
pub fn mkcalendar_settings(calendar_id: &str, body: &[u8]) -> (r: (String, String))
    ensures
        r.0@ == (match spec_body_value(body@, "displayname"@) {
            Some(n) => n,
            None => calendar_id@,
        }),
        r.1@ == (match spec_body_value(body@, "calendar-color"@) {
            Some(c) => c,
            None => "#0E61B9"@,
        }),
{
    let name = match extract_displayname(body) {
        Some(n) => n,
        None => String::from_str(calendar_id),
    };
    let color = match extract_calendar_color(body) {
        Some(c) => c,
        None => String::from_str("#0E61B9"),
    };
    (name, color)
}

} // verus!
