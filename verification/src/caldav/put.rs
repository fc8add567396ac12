//! The computations of GET, PUT and DELETE on calendar objects: the UID a
//! file name names, and the conditional-update check of PUT.
use vstd::prelude::*;

use crate::text::{chars_of, copy_range, eq_lit, string_from_chars};

verus! {

/// A file name with every trailing `.ics` removed.
pub open spec fn trim_ics(s: Seq<char>) -> Seq<char>
    decreases s.len(),
{
    if s.len() >= 4 && s.skip(s.len() - 4) == ".ics"@ {
        trim_ics(s.take(s.len() - 4))
    } else {
        s
    }
}

fn ends_with_ics(c: &[char], end: usize) -> (b: bool)
    requires
        end <= c@.len(),
    ensures
        b == (end >= 4 && c@.take(end as int).skip(end - 4) == ".ics"@),
{
    if end < 4 {
        return false;
    }
    let tail = copy_range(c, end - 4, end);
    assert(tail@ =~= c@.take(end as int).skip(end - 4));
    eq_lit(tail.as_slice(), ".ics")
}

/// The UID a file name names: `filename.trim_end_matches(".ics")`.
pub fn uid_from_filename(filename: &str) -> (uid: String)
    ensures
        uid@ == trim_ics(filename@),
{
    let c = chars_of(filename);
    let mut end: usize = c.len();
    assert(c@.take(end as int) =~= c@);
    while ends_with_ics(c.as_slice(), end)
        invariant
            c@ == filename@,
            end <= c@.len(),
            trim_ics(filename@) == trim_ics(c@.take(end as int)),
        decreases end,
    {
        let ghost t = c@.take(end as int);
        assert(t.take(t.len() - 4) =~= c@.take(end - 4));
        end = end - 4;
    }
    let stem = copy_range(c.as_slice(), 0, end);
    assert(stem@ =~= c@.take(end as int));
    string_from_chars(stem.as_slice())
}

/// The UID a PUT stores under: the body's UID, else the file name's.
pub fn put_uid(body_uid: &Option<String>, url_uid: &str) -> (uid: String)
    ensures
        uid@ == (match body_uid {
            Some(u) => u@,
            None => url_uid@,
        }),
{
    match body_uid {
        Some(u) => u.clone(),
        None => String::from_str(url_uid),
    }
}

/// The ETag an If-Match header asks to compare: its value unless it is `*`.
pub fn if_match_etag(if_match: Option<&str>) -> (e: Option<String>)
    ensures
        match if_match {
            Some(v) => if v@ == "*"@ {
                e is None
            } else {
                e is Some && e.unwrap()@ == v@
            },
            None => e is None,
        },
{
    match if_match {
        Some(v) => {
            let c = chars_of(v);
            if eq_lit(c.as_slice(), "*") {
                None
            } else {
                Some(String::from_str(v))
            }
        },
        None => None,
    }
}

/// The outcome of PUT's If-Match check.
#[derive(Clone, Copy, Debug, PartialEq, Eq, Structural)]
pub enum PutCheck {
    /// Go on with the update.
    Proceed,
    /// 412: the stored ETag differs.
    EtagMismatch,
    /// 412: there is no object to match.
    Missing,
}

/// Compare the expected ETag with the stored object's, if any.
pub fn check_if_match(expected: &str, existing_etag: Option<&str>) -> (c: PutCheck)
    ensures
        c == (match existing_etag {
            Some(e) => if e@ == expected@ {
                PutCheck::Proceed
            } else {
                PutCheck::EtagMismatch
            },
            None => PutCheck::Missing,
        }),
{
    match existing_etag {
        Some(e) => {
            let a = chars_of(e);
            let b = chars_of(expected);
            if crate::text::chars_eq(a.as_slice(), b.as_slice()) {
                PutCheck::Proceed
            } else {
                PutCheck::EtagMismatch
            }
        },
        None => PutCheck::Missing,
    }
}

/// The status of a successful PUT: 201 for a new object, 204 for an update.
pub fn put_status(is_new: bool) -> (s: u16)
    ensures
        s == (if is_new {
            201u16
        } else {
            204u16
        }),
{
    if is_new {
        201
    } else {
        204
    }
}

} // verus!
