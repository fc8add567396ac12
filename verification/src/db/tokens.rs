//! MCP tokens: their raw form, their stored hash, and the search for the
//! user a presented token belongs to.
use vstd::prelude::*;

use super::crypto::{
    argon2_max_secret_bytes, argon2id_default_prefix,
    argon2_check, argon2_hash, argon2_verify, base64_url_encode, base64_url_nopad,
    random_bytes_32,
};
use super::models::McpToken;
use crate::error::AppError;
use crate::text::has_prefix;
use crate::text::cat;

verus! {

/// Generate a cryptographically random token string: `mcp_` and the
/// URL-safe base64 (no padding) of 32 random bytes.
pub fn generate_raw_token() -> (t: String)
    ensures
        exists|bytes: Seq<u8>| bytes.len() == 32 && t@ == "mcp_"@ + #[trigger] base64_url_nopad(bytes),
{
    let bytes = random_bytes_32();
    let encoded = base64_url_encode(bytes.as_slice());
    let t = cat("mcp_", encoded.as_str());
    assert(t@ == "mcp_"@ + base64_url_nopad(bytes@));
    t
}

/// Hash a token using Argon2id.
pub fn hash_token(token: &str) -> (r: Result<String, AppError>)
    ensures
        r is Ok <==> vstd::utf8::encode_utf8(token@).len() <= argon2_max_secret_bytes(),
        match r {
            Ok(h) => argon2_check(token@, h@) == Ok::<bool, Seq<char>>(true)
                && has_prefix(h@, argon2id_default_prefix()),
            Err(AppError::Internal(m)) => exists|e: Seq<char>| m@ == "Token hashing failed: "@ + e,
            Err(_) => false,
        },
{
    match argon2_hash(token) {
        Ok(h) => Ok(h),
        Err(e) => Err(AppError::Internal(cat("Token hashing failed: ", e.as_str()))),
    }
}

/// What checking a token against a stored hash gives: an error for a hash
/// that is no PHC string, else whether the token matches.
pub open spec fn spec_verify(secret: Seq<char>, hash: Seq<char>, what: Seq<char>) -> Result<bool, Seq<char>> {
    match argon2_check(secret, hash) {
        Ok(b) => Ok(b),
        Err(e) => Err(what + e),
    }
}

/// Verify a raw token against a stored hash.
pub fn verify_token(token: &str, hash: &str) -> (r: Result<bool, AppError>)
    ensures
        match r {
            Ok(b) => spec_verify(token@, hash@, "Invalid token hash: "@) == Ok::<bool, Seq<char>>(b),
            Err(AppError::Internal(m)) => spec_verify(token@, hash@, "Invalid token hash: "@)
                == Err::<bool, Seq<char>>(m@),
            Err(_) => false,
        },
{
    match argon2_verify(token, hash) {
        Ok(b) => Ok(b),
        Err(e) => Err(AppError::Internal(cat("Invalid token hash: ", e.as_str()))),
    }
}

/// The user of the first stored token (in order) that the raw token
/// matches; a stored hash that is no PHC string stops the search with an
/// error.
pub open spec fn token_search(raw: Seq<char>, tokens: Seq<McpToken>) -> Result<Option<Seq<char>>, Seq<char>>
    decreases tokens.len(),
{
    if tokens.len() == 0 {
        Ok(None)
    } else {
        match spec_verify(raw, tokens[0].token_hash@, "Invalid token hash: "@) {
            Err(e) => Err(e),
            Ok(true) => Ok(Some(tokens[0].user_id@)),
            Ok(false) => token_search(raw, tokens.drop_first()),
        }
    }
}

/// Validate a raw token against the stored (unexpired) tokens and return
/// the associated user ID if one matches.
pub fn find_token_user(raw_token: &str, tokens: &Vec<McpToken>) -> (r: Result<Option<String>, AppError>)
    ensures
        match r {
            Ok(Some(u)) => token_search(raw_token@, tokens@) == Ok::<Option<Seq<char>>, Seq<char>>(
                Some(u@),
            ),
            Ok(None) => token_search(raw_token@, tokens@) == Ok::<Option<Seq<char>>, Seq<char>>(None),
            Err(AppError::Internal(m)) => token_search(raw_token@, tokens@) == Err::<
                Option<Seq<char>>,
                Seq<char>,
            >(m@),
            Err(_) => false,
        },
{
    let mut i: usize = 0;
    assert(tokens@.skip(0) =~= tokens@);
    while i < tokens.len()
        invariant
            i <= tokens@.len(),
            token_search(raw_token@, tokens@) == token_search(raw_token@, tokens@.skip(i as int)),
        decreases tokens@.len() - i,
    {
        assert(tokens@.skip(i as int).drop_first() =~= tokens@.skip(i + 1));
        assert(tokens@.skip(i as int)[0] == tokens@[i as int]);
        match verify_token(raw_token, tokens[i].token_hash.as_str()) {
            Ok(true) => return Ok(Some(tokens[i].user_id.clone())),
            Ok(false) => {},
            Err(e) => return Err(e),
        }
        i = i + 1;
    }
    Ok(None)
}

/// A token whose hash was made from the raw token is found again: the
/// search answers with its user when no earlier stored token matches or
/// fails.
pub proof fn lemma_created_token_found(raw: Seq<char>, tokens: Seq<McpToken>, k: int)
    requires
        0 <= k < tokens.len(),
        argon2_check(raw, tokens[k].token_hash@) == Ok::<bool, Seq<char>>(true),
        forall|j: int| 0 <= j < k ==> argon2_check(raw, #[trigger] tokens[j].token_hash@) == Ok::<bool, Seq<char>>(false),
    ensures
        token_search(raw, tokens) == Ok::<Option<Seq<char>>, Seq<char>>(Some(tokens[k].user_id@)),
    decreases k,
{
    if k > 0 {
        let rest = tokens.drop_first();
        assert forall|j: int| 0 <= j < k - 1 implies argon2_check(raw, #[trigger] rest[j].token_hash@)
            == Ok::<bool, Seq<char>>(false) by {
            assert(rest[j] == tokens[j + 1]);
        }
        assert(rest[k - 1] == tokens[k]);
        assert(argon2_check(raw, tokens[0].token_hash@) == Ok::<bool, Seq<char>>(false));
        lemma_created_token_found(raw, rest, k - 1);
    }
}

/// The error of deleting a token that does not exist.
pub fn token_not_found() -> (e: AppError)
    ensures
        e matches AppError::NotFound(m) && m@ == "Token not found"@,
{
    AppError::NotFound(String::from_str("Token not found"))
}

} // verus!
