//! The computations of PROPPATCH: which calendar properties a body sets, and
//! the multistatus answer.
use vstd::prelude::*;

use super::mkcalendar::{extract_xml_value, spec_xml_value};
use super::xml::multistatus::{
    end_tag, header_text, prop_views, response_text, MultistatusBuilder, PropContent,
    PropContentView, PropValue, PropValueView,
};
use super::xml::properties::{
    calendar_href_for_context, ctx_email, pv, spec_calendar_href_for_context,
};
use super::HrefContext;
use super::xml::{APPLE_NS, CALDAV_NS, DAV_NS};
use crate::text::{string_views, utf8_lossy, spec_utf8_lossy};

verus! {

/// Simple extraction of a property value from PROPPATCH XML: the first
/// character data inside the element `local_name`.
pub fn extract_prop_value(xml: &str, local_name: &str) -> (r: Option<String>)
    ensures
        match r {
            Some(v) => spec_xml_value(xml@, local_name@) == Some(v@),
            None => spec_xml_value(xml@, local_name@) is None,
        },
{
    extract_xml_value(xml, local_name)
}

/// An optional text, as text.
pub open spec fn opt_text(o: Option<String>) -> Option<Seq<char>> {
    match o {
        Some(s) => Some(s@),
        None => None,
    }
}

/// The calendar settings a PROPPATCH body changes.
pub struct CalendarUpdate {
    pub name: Option<String>,
    pub description: Option<String>,
    pub color: Option<String>,
}

/// The display name, description and color a PROPPATCH body sets (each
/// left unchanged when the body does not name it).
pub fn proppatch_updates(body: &[u8]) -> (u: CalendarUpdate)
    ensures
        opt_text(u.name) == spec_xml_value(spec_utf8_lossy(body@), "displayname"@),
        opt_text(u.description) == spec_xml_value(spec_utf8_lossy(body@), "calendar-description"@),
        opt_text(u.color) == spec_xml_value(spec_utf8_lossy(body@), "calendar-color"@),
{
    let text = utf8_lossy(body);
    let name = extract_prop_value(text.as_str(), "displayname");
    let description = extract_prop_value(text.as_str(), "calendar-description");
    let color = extract_prop_value(text.as_str(), "calendar-color");
    CalendarUpdate { name, description, color }
}

/// The properties a PROPPATCH reports as set, with empty values.
pub open spec fn spec_patched_props(name: bool, description: bool, color: bool) -> Seq<PropValueView> {
    let a: Seq<PropValueView> = if name {
        seq![pv("displayname"@, DAV_NS@, PropContentView::Empty)]
    } else {
        seq![]
    };
    let b: Seq<PropValueView> = if description {
        seq![pv("calendar-description"@, CALDAV_NS@, PropContentView::Empty)]
    } else {
        seq![]
    };
    let c: Seq<PropValueView> = if color {
        seq![pv("calendar-color"@, APPLE_NS@, PropContentView::Empty)]
    } else {
        seq![]
    };
    a + b + c
}

/// The answer to a successful PROPPATCH: one response for the calendar's
/// href (under the email path on the email route, else under the username
/// path) listing the properties that were set.
pub fn proppatch_multistatus(ctx: &HrefContext, calendar_id: &str, update: &CalendarUpdate) -> (bytes: Vec<u8>)
    ensures
        bytes@ == vstd::utf8::encode_utf8(
            header_text() + response_text(
                spec_calendar_href_for_context(ctx_email(*ctx), ctx.username@, calendar_id@),
                spec_patched_props(
                    update.name is Some,
                    update.description is Some,
                    update.color is Some,
                ),
                seq![],
            ) + end_tag("D:multistatus"@),
        ),
{
    let href = calendar_href_for_context(ctx, calendar_id);
    let mut found: Vec<PropValue> = Vec::new();
    if update.name.is_some() {
        found.push(
            PropValue {
                name: String::from_str("displayname"),
                namespace: String::from_str(DAV_NS),
                value: PropContent::Empty,
            },
        );
    }
    if update.description.is_some() {
        found.push(
            PropValue {
                name: String::from_str("calendar-description"),
                namespace: String::from_str(CALDAV_NS),
                value: PropContent::Empty,
            },
        );
    }
    if update.color.is_some() {
        found.push(
            PropValue {
                name: String::from_str("calendar-color"),
                namespace: String::from_str(APPLE_NS),
                value: PropContent::Empty,
            },
        );
    }
    assert(prop_views(found@) =~= spec_patched_props(
        update.name is Some,
        update.description is Some,
        update.color is Some,
    ));
    let mut builder = MultistatusBuilder::new();
    let none: Vec<String> = Vec::new();
    assert(string_views(none@) =~= seq![]);
    builder.add_response(href.as_str(), found, none);
    builder.build()
}

} // verus!
