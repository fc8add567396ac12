//! Users: password hashing and checking, and the errors of the user store.
use vstd::prelude::*;

use super::crypto::{
    argon2_max_secret_bytes, argon2id_default_prefix, argon2_check, argon2_hash, argon2_verify};
use super::models::User;
use super::tokens::spec_verify;
use crate::error::AppError;
use crate::text::has_prefix;
use crate::text::{cat, cat3};

verus! {

/// Hash a password using Argon2id.
pub fn hash_password(password: &str) -> (r: Result<String, AppError>)
    ensures
        r is Ok <==> vstd::utf8::encode_utf8(password@).len() <= argon2_max_secret_bytes(),
        match r {
            Ok(h) => argon2_check(password@, h@) == Ok::<bool, Seq<char>>(true)
                && has_prefix(h@, argon2id_default_prefix()),
            Err(AppError::Internal(m)) => exists|e: Seq<char>| m@ == "Password hashing failed: "@ + e,
            Err(_) => false,
        },
{
    match argon2_hash(password) {
        Ok(h) => Ok(h),
        Err(e) => Err(AppError::Internal(cat("Password hashing failed: ", e.as_str()))),
    }
}

/// Verify a password against a stored hash.
pub fn verify_password(password: &str, hash: &str) -> (r: Result<bool, AppError>)
    ensures
        match r {
            Ok(b) => spec_verify(password@, hash@, "Invalid password hash: "@) == Ok::<bool, Seq<char>>(b),
            Err(AppError::Internal(m)) => spec_verify(password@, hash@, "Invalid password hash: "@)
                == Err::<bool, Seq<char>>(m@),
            Err(_) => false,
        },
{
    match argon2_verify(password, hash) {
        Ok(b) => Ok(b),
        Err(e) => Err(AppError::Internal(cat("Invalid password hash: ", e.as_str()))),
    }
}

/// The user a login finds (by user name, else by email) when the password
/// matches its stored hash.
pub fn check_user_password(password: &str, user: User) -> (r: Result<Option<User>, AppError>)
    ensures
        match spec_verify(password@, user.password_hash@, "Invalid password hash: "@) {
            Ok(true) => r matches Ok(Some(u)) && u == user,
            Ok(false) => r matches Ok(None),
            Err(m) => r matches Err(AppError::Internal(e)) && e@ == m,
        },
{
    match verify_password(password, user.password_hash.as_str()) {
        Ok(true) => Ok(Some(user)),
        Ok(false) => Ok(None),
        Err(e) => Err(e),
    }
}

/// The error of creating a user whose name is taken.
pub fn user_exists(username: &str) -> (e: AppError)
    ensures
        e matches AppError::Conflict(m) && m@ == "User '"@ + username@ + "' already exists"@,
{
    AppError::Conflict(cat3("User '", username, "' already exists"))
}

/// The error of resetting the password of a user that does not exist.
pub fn user_not_found(username: &str) -> (e: AppError)
    ensures
        e matches AppError::Internal(m) && m@ == "User '"@ + username@ + "' not found"@,
{
    AppError::Internal(cat3("User '", username, "' not found"))
}

/// A password hashed for a user checks against that hash.
pub proof fn lemma_password_round_trip(password: Seq<char>, hash: Seq<char>)
    requires
        argon2_check(password, hash) == Ok::<bool, Seq<char>>(true),
    ensures
        spec_verify(password, hash, "Invalid password hash: "@) == Ok::<bool, Seq<char>>(true),
{
}

} // verus!
