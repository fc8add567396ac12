//! Bearer authentication of MCP requests.
use vstd::prelude::*;

use crate::text::{chars_of, copy_range, has_prefix, starts_with, string_from_chars};

verus! {

/// Wrapper for the authenticated MCP user's ID.
#[derive(Debug, Clone)]
pub struct McpUserId(pub String);

/// The token of a Bearer Authorization header, or the reason for a 401.
pub open spec fn spec_bearer_token(header: Option<Seq<char>>) -> Result<Seq<char>, Seq<char>> {
    match header {
        None => Err("Missing Authorization header"@),
        Some(h) => if has_prefix(h, "Bearer "@) {
            Ok(h.skip(7))
        } else {
            Err("Invalid authorization scheme, expected Bearer"@)
        },
    }
}

/// The token a request's Authorization header carries (`Bearer <token>`),
/// or the message of the 401 answer.
pub fn bearer_token(header: Option<&str>) -> (r: Result<String, String>)
    ensures
        match r {
            Ok(t) => spec_bearer_token(
                match header {
                    Some(h) => Some(h@),
                    None => None,
                },
            ) == Ok::<Seq<char>, Seq<char>>(t@),
            Err(e) => spec_bearer_token(
                match header {
                    Some(h) => Some(h@),
                    None => None,
                },
            ) == Err::<Seq<char>, Seq<char>>(e@),
        },
{
    match header {
        None => Err(String::from_str("Missing Authorization header")),
        Some(h) => {
            let c = chars_of(h);
            let p = chars_of("Bearer ");
            if starts_with(c.as_slice(), p.as_slice()) {
                let rest = copy_range(c.as_slice(), p.len(), c.len());
                assert(rest@ =~= h@.skip(7)) by {
                    reveal_strlit("Bearer ");
                }
                Ok(string_from_chars(rest.as_slice()))
            } else {
                Err(String::from_str("Invalid authorization scheme, expected Bearer"))
            }
        },
    }
}

} // verus!
