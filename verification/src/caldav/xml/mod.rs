//! WebDAV/CalDAV XML: namespaces, request parsing, multistatus building.
pub mod multistatus;
pub mod parse;
pub mod properties;
pub mod scan;

use vstd::prelude::*;

verus! {

/// DAV: namespace
pub const DAV_NS: &'static str = "DAV:";

/// CalDAV namespace
pub const CALDAV_NS: &'static str = "urn:ietf:params:xml:ns:caldav";

/// Apple iCal namespace (for calendar-color, calendar-order, etc.)
pub const APPLE_NS: &'static str = "http://apple.com/ns/ical/";

/// CalendarServer namespace (for getctag)
pub const CS_NS: &'static str = "http://calendarserver.org/ns/";

/// The prefix the multistatus root declares for a namespace URI
/// (unknown namespaces fall back to `D`).
pub open spec fn spec_ns_prefix(namespace: Seq<char>) -> Seq<char> {
    if namespace == DAV_NS@ {
        "D"@
    } else if namespace == CALDAV_NS@ {
        "C"@
    } else if namespace == APPLE_NS@ {
        "A"@
    } else if namespace == CS_NS@ {
        "CS"@
    } else {
        "D"@
    }
}

} // verus!
