//! The stored records: users, calendars, calendar objects, shares, sync log
//! entries and MCP tokens, and the permission levels of a share.
use chrono::NaiveDateTime;
use vstd::prelude::*;

verus! {

#[verifier::external_type_specification]
#[verifier::external_body]
pub struct ExNaiveDateTime(NaiveDateTime);

/// `NaiveDateTime::clone` (derived; the type is `Copy`): the copy is the
/// same date and time.
pub assume_specification[ <NaiveDateTime as Clone>::clone ](x: &NaiveDateTime) -> (r: NaiveDateTime)
    ensures
        r == *x,
;

/// A registered user.
#[derive(Debug, Clone)]
pub struct User {
    pub id: String,
    pub username: String,
    pub email: Option<String>,
    pub password_hash: String,
    pub created_at: NaiveDateTime,
}

/// A calendar collection owned by a user.
#[derive(Debug, Clone)]
pub struct Calendar {
    pub id: String,
    pub owner_id: String,
    pub name: String,
    pub description: String,
    pub color: String,
    pub timezone: String,
    pub ctag: String,
    pub sync_token: String,
    pub created_at: NaiveDateTime,
    pub updated_at: NaiveDateTime,
}

/// A calendar object (VEVENT, VTODO, etc.) stored as raw iCalendar data.
#[derive(Debug, Clone)]
pub struct CalendarObject {
    pub id: String,
    pub calendar_id: String,
    pub uid: String,
    pub etag: String,
    pub ical_data: String,
    pub component_type: String,
    pub dtstart: Option<String>,
    pub dtend: Option<String>,
    pub summary: Option<String>,
    pub created_at: NaiveDateTime,
    pub updated_at: NaiveDateTime,
}

/// A sharing grant giving a user access to another user's calendar.
#[derive(Debug, Clone)]
pub struct CalendarShare {
    pub id: String,
    pub calendar_id: String,
    pub user_id: String,
    pub permission: String,
    pub created_at: NaiveDateTime,
}

/// A record in the sync change log for sync-collection REPORT.
#[derive(Debug, Clone)]
pub struct SyncChange {
    pub id: i64,
    pub calendar_id: String,
    pub object_uid: String,
    pub change_type: String,
    pub sync_token: String,
    pub created_at: NaiveDateTime,
}

/// An MCP API token for LLM access.
#[derive(Debug, Clone)]
pub struct McpToken {
    pub id: String,
    pub user_id: String,
    pub token_hash: String,
    pub name: String,
    pub created_at: NaiveDateTime,
    pub expires_at: Option<NaiveDateTime>,
}

/// Permission level for calendar sharing.
#[derive(Debug, Clone, Copy, PartialEq, Eq, Structural)]
pub enum Permission {
    Read,
    ReadWrite,
}

/// The stored text of a permission.
pub open spec fn permission_text(p: Permission) -> Seq<char> {
    match p {
        Permission::Read => "read"@,
        Permission::ReadWrite => "read-write"@,
    }
}

/// The permission a stored text names, if any.
pub open spec fn permission_of_text(s: Seq<char>) -> Option<Permission> {
    if s == "read"@ {
        Some(Permission::Read)
    } else if s == "read-write"@ {
        Some(Permission::ReadWrite)
    } else {
        None
    }
}

impl Permission {
    pub fn as_str(&self) -> (s: &'static str)
        ensures
            s@ == permission_text(*self),
    {
        match self {
            Permission::Read => "read",
            Permission::ReadWrite => "read-write",
        }
    }

    pub fn from_str_value(s: &str) -> (r: Option<Self>)
        ensures
            r == permission_of_text(s@),
    {
        let c = crate::text::chars_of(s);
        if crate::text::eq_lit(c.as_slice(), "read") {
            Some(Permission::Read)
        } else if crate::text::eq_lit(c.as_slice(), "read-write") {
            Some(Permission::ReadWrite)
        } else {
            None
        }
    }

    /// Whether this permission allows write operations.
    pub fn can_write(&self) -> (b: bool)
        ensures
            b == (*self == Permission::ReadWrite),
    {
        matches!(self, Permission::ReadWrite)
    }
}

/// Reading back the stored text of a permission gives the permission.
pub proof fn lemma_permission_text_round_trip(p: Permission)
    ensures
        permission_of_text(permission_text(p)) == Some(p),
{
    reveal_strlit("read");
    reveal_strlit("read-write");
    assert("read"@.len() != "read-write"@.len());
}

/// Only the two stored texts name a permission, and each is the stored
/// text of the permission it names.
pub proof fn lemma_permission_of_text_exact(s: Seq<char>)
    ensures
        permission_of_text(s) is Some ==> permission_text(permission_of_text(s).unwrap()) == s,
{
}

} // verus!
