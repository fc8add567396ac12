//! Calendars: new sync tokens, the settings an update leaves, and the
//! errors of the calendar store.
use vstd::prelude::*;

use super::models::Calendar;
use crate::error::AppError;
use crate::ids::{is_uuid_text, uuid_v7_text};
use crate::text::{cat, cat3, chars_eq, chars_of};

verus! {

/// Generate a new sync token (monotonically increasing UUID v7).
pub fn new_sync_token() -> (t: String)
    ensures
        exists|u: Seq<char>| is_uuid_text(u) && t@ == "sync-"@ + u,
{
    let u = uuid_v7_text();
    let t = cat("sync-", u.as_str());
    assert(is_uuid_text(u@) && t@ == "sync-"@ + u@);
    t
}

/// The settings of a calendar after an update.
pub struct CalendarSettings {
    pub name: String,
    pub description: String,
    pub color: String,
    pub timezone: String,
}

/// A new value, or the current one.
pub open spec fn keep_or(new: Option<&str>, current: Seq<char>) -> Seq<char> {
    match new {
        Some(v) => v@,
        None => current,
    }
}

fn choose_value(new: Option<&str>, current: &String) -> (r: String)
    ensures
        r@ == keep_or(new, current@),
{
    match new {
        Some(v) => String::from_str(v),
        None => current.clone(),
    }
}

/// The settings an update writes: each given value replaces the
/// calendar's, the others stay.
pub fn merged_settings(
    calendar: &Calendar,
    name: Option<&str>,
    description: Option<&str>,
    color: Option<&str>,
    timezone: Option<&str>,
) -> (s: CalendarSettings)
    ensures
        s.name@ == keep_or(name, calendar.name@),
        s.description@ == keep_or(description, calendar.description@),
        s.color@ == keep_or(color, calendar.color@),
        s.timezone@ == keep_or(timezone, calendar.timezone@),
{
    CalendarSettings {
        name: choose_value(name, &calendar.name),
        description: choose_value(description, &calendar.description),
        color: choose_value(color, &calendar.color),
        timezone: choose_value(timezone, &calendar.timezone),
    }
}

/// The error of a calendar that does not exist.
pub fn calendar_not_found(id: &str) -> (e: AppError)
    ensures
        e matches AppError::NotFound(m) && m@ == "Calendar "@ + id@ + " not found"@,
{
    AppError::NotFound(cat3("Calendar ", id, " not found"))
}

/// Whether a user may delete a calendar: only its owner may; a share, even
/// a read-write one, never grants it.
pub fn can_delete_calendar(calendar: &Calendar, user_id: &str) -> (b: bool)
    ensures
        b == (calendar.owner_id@ == user_id@),
{
    let owner = chars_of(calendar.owner_id.as_str());
    let user = chars_of(user_id);
    chars_eq(owner.as_slice(), user.as_slice())
}

/// The calendar a user's events go to when no calendar is named: the first
/// one they can reach, or none (then a default calendar is made).
pub fn default_calendar_id(calendars: &Vec<Calendar>) -> (id: Option<String>)
    ensures
        match id {
            Some(i) => calendars@.len() > 0 && i@ == calendars@[0].id@,
            None => calendars@.len() == 0,
        },
{
    if calendars.len() == 0 {
        None
    } else {
        Some(calendars[0].id.clone())
    }
}

} // verus!
