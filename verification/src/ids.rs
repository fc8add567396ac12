//! Random identifiers: UUID text, event UIDs, ETags and sync tokens.
use vstd::prelude::*;

verus! {

/// A lowercase hexadecimal digit.
pub open spec fn is_lower_hex(c: char) -> bool {
    ('0' <= c && c <= '9') || ('a' <= c && c <= 'f')
}

/// The hyphenated text form of a UUID: 36 characters, `-` at 8, 13, 18
/// and 23, lowercase hexadecimal digits elsewhere.
pub open spec fn is_uuid_text(s: Seq<char>) -> bool {
    &&& s.len() == 36
    &&& forall|i: int|
        0 <= i < 36 ==> if i == 8 || i == 13 || i == 18 || i == 23 {
            s[i] == '-'
        } else {
            is_lower_hex(#[trigger] s[i])
        }
}

/// `uuid::Uuid::new_v4().to_string()`: a random version-4 UUID in its
/// hyphenated lowercase form (`Display` for `Uuid` writes `as_hyphenated()`
/// in lower case). Which UUID comes back is left open: it is random.
#[verifier::external_body]
pub fn uuid_v4_text() -> (s: String)
    ensures
        is_uuid_text(s@),
{
    uuid::Uuid::new_v4().to_string()
}

/// `uuid::Uuid::now_v7().to_string()`: a time-ordered version-7 UUID in its
/// hyphenated lowercase form. Which UUID comes back (it depends on the clock
/// and on random bits) is left open.
#[verifier::external_body]
pub fn uuid_v7_text() -> (s: String)
    ensures
        is_uuid_text(s@),
{
    uuid::Uuid::now_v7().to_string()
}

} // verus!
