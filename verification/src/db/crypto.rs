//! The outside cryptography the stores use: Argon2 hashing and checking of
//! secrets, random token bytes, and URL-safe base64.
use vstd::prelude::*;

use argon2::password_hash::rand_core::OsRng;
use argon2::password_hash::{PasswordHash, PasswordHasher, PasswordVerifier, SaltString};
use argon2::Argon2;
use rand::RngCore;

verus! {

/// What checking `secret` against the PHC string `hash` with
/// `Argon2::default()` gives: the parse error's text when `hash` is no PHC
/// string (`PasswordHash::new`), otherwise whether `verify_password`
/// accepts the secret.
pub uninterp spec fn argon2_check(secret: Seq<char>, hash: Seq<char>) -> Result<bool, Seq<char>>;

/// What `base64::engine::general_purpose::URL_SAFE_NO_PAD.encode` makes of
/// the bytes.
pub uninterp spec fn base64_url_nopad(bytes: Seq<u8>) -> Seq<char>;

/// The longest secret, in UTF-8 bytes, that Argon2 hashes (`MAX_PWD_LEN`).
pub open spec fn argon2_max_secret_bytes() -> nat {
    0xFFFF_FFFF
}

/// How a PHC string made with `Argon2::default()` begins: the Argon2id
/// algorithm, version 19 and the default costs (m = 19 MiB, t = 2, p = 1),
/// before the salt and the hash.
pub open spec fn argon2id_default_prefix() -> Seq<char> {
    "$argon2id$v=19$m=19456,t=2,p=1$"@
}

/// Hash a secret with `Argon2::default()` and a fresh random salt
/// (`SaltString::generate(&mut OsRng)`), as a PHC string, or the hasher's
/// error text. With the default parameters and a generated 16-byte salt the
/// hasher fails only for a secret longer than `MAX_PWD_LEN` bytes
/// (`Argon2::verify_inputs`); its string is written by `PasswordHash`'s
/// `Display` as `$argon2id$v=19$m=19456,t=2,p=1$` then salt and hash. The
/// salt is random, so which string comes back is left open beyond that
/// prefix; what is stated is that checking the same secret against it
/// succeeds (verification recomputes the hash with the salt and parameters
/// the string carries).
#[verifier::external_body]
pub fn argon2_hash(secret: &str) -> (r: Result<String, String>)
    ensures
        r is Ok <==> vstd::utf8::encode_utf8(secret@).len() <= argon2_max_secret_bytes(),
        match r {
            Ok(h) => argon2_check(secret@, h@) == Ok::<bool, Seq<char>>(true)
                && crate::text::has_prefix(h@, argon2id_default_prefix()),
            Err(_) => true,
        },
{
    let salt = SaltString::generate(&mut OsRng);
    Argon2::default()
        .hash_password(secret.as_bytes(), &salt)
        .map(|h| h.to_string())
        .map_err(|e| e.to_string())
}

/// Check a secret against a stored PHC string: `PasswordHash::new(hash)`
/// (its error as text), then `Argon2::default().verify_password(..).is_ok()`.
#[verifier::external_body]
pub fn argon2_verify(secret: &str, hash: &str) -> (r: Result<bool, String>)
    ensures
        match r {
            Ok(b) => argon2_check(secret@, hash@) == Ok::<bool, Seq<char>>(b),
            Err(e) => argon2_check(secret@, hash@) == Err::<bool, Seq<char>>(e@),
        },
{
    match PasswordHash::new(hash) {
        Ok(parsed) => Ok(Argon2::default().verify_password(secret.as_bytes(), &parsed).is_ok()),
        Err(e) => Err(e.to_string()),
    }
}

/// 32 random bytes from the operating system (`OsRng.fill_bytes`).
#[verifier::external_body]
pub fn random_bytes_32() -> (b: Vec<u8>)
    ensures
        b@.len() == 32,
{
    let mut bytes = [0u8; 32];
    OsRng.fill_bytes(&mut bytes);
    bytes.to_vec()
}

/// `URL_SAFE_NO_PAD.encode(bytes)`.
#[verifier::external_body]
pub fn base64_url_encode(bytes: &[u8]) -> (s: String)
    ensures
        s@ == base64_url_nopad(bytes@),
{
    base64::Engine::encode(&base64::engine::general_purpose::URL_SAFE_NO_PAD, bytes)
}

} // verus!
