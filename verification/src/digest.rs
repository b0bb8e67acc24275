//! One-way fingerprint of a raw refresh token value.
//!
//! The ledger never persists a raw refresh token: it stores and compares this
//! deterministic digest instead, so a stolen database cannot replay tokens.

use vstd::prelude::*;

verus! {

// Name for the digest of a raw token value; a deterministic function of the
// token alone, given meaning by the wrapper below.
pub uninterp spec fn token_digest(token: Seq<char>) -> Seq<char>;

/// Relies on sha2::Sha256 and its lower-hex rendering: a deterministic one-way
/// fingerprint of the raw token value.
#[verifier::external_body]
pub(crate) fn hash_token(token: &str) -> (r: String)
    ensures
        r@ == token_digest(token@),
{
    let mut hasher: sha2::Sha256 = sha2::Digest::new();
    sha2::Digest::update(&mut hasher, token.as_bytes());
    format!("{:x}", sha2::Digest::finalize(hasher))
}

} // verus!
