//! HTTP Basic credentials: from an Authorization header to a user name and
//! a password.
use vstd::prelude::*;

use crate::text::{
    string_from_utf8,
    chars_of, copy_range, find_char, first_index_of, has_prefix, lemma_first_index_of,
    starts_with, string_from_chars,
};

verus! {

/// What `base64::engine::general_purpose::STANDARD.decode` makes of a text:
/// the decoded bytes, or none when the text is not valid padded base64.
pub uninterp spec fn base64_standard_decode(encoded: Seq<char>) -> Option<Seq<u8>>;

/// `base64::engine::general_purpose::STANDARD.decode(encoded)`, with the
/// error dropped. The decoding itself is named by `base64_standard_decode`.
#[verifier::external_body]
fn base64_decode(encoded: &str) -> (r: Option<Vec<u8>>)
    ensures
        match r {
            Some(v) => base64_standard_decode(encoded@) == Some(v@),
            None => base64_standard_decode(encoded@) is None,
        },
{
    base64::Engine::decode(&base64::engine::general_purpose::STANDARD, encoded).ok()
}

/// The user name and password of decoded credentials: valid UTF-8 split at
/// the first `:`.
pub open spec fn spec_split_credentials(decoded: Seq<u8>) -> Option<(Seq<char>, Seq<char>)> {
    if !vstd::utf8::valid_utf8(decoded) {
        None
    } else {
        let text = vstd::utf8::decode_utf8(decoded);
        let k = first_index_of(text, ':');
        if k < text.len() {
            Some((text.take(k), text.skip(k + 1)))
        } else {
            None
        }
    }
}

/// The credentials an Authorization header carries: `Basic ` and then the
/// base64 of `user:password`.
pub open spec fn spec_basic_credentials(header: Seq<char>) -> Option<(Seq<char>, Seq<char>)> {
    if has_prefix(header, "Basic "@) {
        match base64_standard_decode(header.skip(6)) {
            Some(bytes) => spec_split_credentials(bytes),
            None => None,
        }
    } else {
        None
    }
}

/// A pair of texts, as text.
pub open spec fn pair_view(p: Option<(String, String)>) -> Option<(Seq<char>, Seq<char>)> {
    match p {
        Some((a, b)) => Some((a@, b@)),
        None => None,
    }
}

/// Split decoded credentials into user name and password.
pub fn split_credentials(decoded: Vec<u8>) -> (r: Option<(String, String)>)
    ensures
        pair_view(r) == spec_split_credentials(decoded@),
{
    let ghost bytes = decoded@;
    let text = match string_from_utf8(decoded) {
        Some(t) => t,
        None => return None,
    };
    let c = chars_of(text.as_str());
    let k = find_char(c.as_slice(), 0, ':');
    assert(c@.skip(0) =~= c@);
    proof {
        lemma_first_index_of(c@, ':');
    }
    if k < c.len() {
        let user = copy_range(c.as_slice(), 0, k);
        let pass = copy_range(c.as_slice(), k + 1, c.len());
        assert(user@ =~= c@.take(k as int));
        assert(pass@ =~= c@.skip(k + 1));
        Some((string_from_chars(user.as_slice()), string_from_chars(pass.as_slice())))
    } else {
        None
    }
}

/// Parse an HTTP Basic Authorization header into user name and password.
pub fn parse_basic_credentials(header: &str) -> (r: Option<(String, String)>)
    ensures
        pair_view(r) == spec_basic_credentials(header@),
{
    let c = chars_of(header);
    let prefix = chars_of("Basic ");
    if !starts_with(c.as_slice(), prefix.as_slice()) {
        return None;
    }
    let rest = copy_range(c.as_slice(), prefix.len(), c.len());
    assert(rest@ =~= header@.skip(6)) by {
        reveal_strlit("Basic ");
    }
    let encoded = string_from_chars(rest.as_slice());
    match base64_decode(encoded.as_str()) {
        Some(bytes) => split_credentials(bytes),
        None => None,
    }
}

/// Whose request this is, before any database lookup: the user an
/// Authorization header names, a refusal (401) for a header that carries no
/// Basic credentials, or, without a header, the user the path names.
pub enum UserChoice {
    /// Check this user name and password.
    Credentials(String, String),
    /// Answer 401.
    Reject,
    /// Use the user the path (username or email) names.
    FromPath,
}

/// The meaning of a `UserChoice`.
pub enum UserChoiceView {
    Credentials(Seq<char>, Seq<char>),
    Reject,
    FromPath,
}

impl View for UserChoice {
    type V = UserChoiceView;

    open spec fn view(&self) -> UserChoiceView {
        match self {
            UserChoice::Credentials(u, p) => UserChoiceView::Credentials(u@, p@),
            UserChoice::Reject => UserChoiceView::Reject,
            UserChoice::FromPath => UserChoiceView::FromPath,
        }
    }
}

/// The choice of user for an optional Authorization header.
pub open spec fn spec_user_choice(header: Option<Seq<char>>) -> UserChoiceView {
    match header {
        None => UserChoiceView::FromPath,
        Some(h) => match spec_basic_credentials(h) {
            Some((u, p)) => UserChoiceView::Credentials(u, p),
            None => UserChoiceView::Reject,
        },
    }
}

/// Which user a request on a user's or an email's path acts as: a present
/// Authorization header decides alone (its credentials, or 401 when it
/// carries none); without one, the path's user.
pub fn user_choice(header: Option<&str>) -> (c: UserChoice)
    ensures
        c@ == spec_user_choice(match header {
            Some(h) => Some(h@),
            None => None,
        }),
{
    match header {
        None => UserChoice::FromPath,
        Some(h) => match parse_basic_credentials(h) {
            Some((u, p)) => UserChoice::Credentials(u, p),
            None => UserChoice::Reject,
        },
    }
}

} // verus!
