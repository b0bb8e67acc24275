//! Credential hasher: one-way salted password hashing and verification.
//!
//! Hashing embeds the algorithm parameters and a freshly drawn random salt in
//! a self-describing hash string; verification re-runs the hash with the
//! embedded parameters and compares in constant time. Any parse failure or
//! mismatch yields the same generic `InvalidCredentials` outcome, never a
//! distinct signal that would leak information.

use vstd::prelude::*;

verus! {

use crate::error::AuthError;

// Name for the deterministic outcome of verifying a password against a stored
// hash string; given meaning by the wrappers below.
pub uninterp spec fn password_verifies(password: Seq<char>, hash: Seq<char>) -> bool;

/// Relies on argon2's PasswordHasher::hash_password with a salt drawn from a
/// cryptographically secure source: whatever salt was drawn, the produced hash
/// string verifies against the password it was produced from.
#[verifier::external_body]
pub(crate) fn hash_password(password: &str) -> (r: Result<String, AuthError>)
    ensures
        r matches Ok(h) ==> password_verifies(password@, h@),
        r matches Err(e) ==> e is HashingError,
{
    let salt = argon2::password_hash::SaltString::generate(
        &mut argon2::password_hash::rand_core::OsRng,
    );
    argon2::password_hash::PasswordHasher::hash_password(
        &argon2::Argon2::default(),
        password.as_bytes(),
        &salt,
    )
        .map(|hash| hash.to_string())
        .map_err(|e| AuthError::HashingError(e.to_string()))
}

/// Relies on argon2's PasswordVerifier::verify_password: a deterministic check
/// of the password against the parameters and salt embedded in the stored hash
/// string; parse failures and mismatches both come back as the one generic
/// `InvalidCredentials`.
#[verifier::external_body]
pub(crate) fn verify_password(password: &str, password_hash: &str) -> (r: Result<(), AuthError>)
    ensures
        r is Ok <==> password_verifies(password@, password_hash@),
        r matches Err(e) ==> e == AuthError::InvalidCredentials,
{
    let parsed = match argon2::password_hash::PasswordHash::new(password_hash) {
        Ok(p) => p,
        Err(_) => return Err(AuthError::InvalidCredentials),
    };
    argon2::password_hash::PasswordVerifier::verify_password(
        &argon2::Argon2::default(),
        password.as_bytes(),
        &parsed,
    ).map_err(|_| AuthError::InvalidCredentials)
}

} // verus!
