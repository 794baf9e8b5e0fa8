//! Credential hasher: turns a plaintext secret into a storable, salted,
//! cost-parameterized hash and verifies a plaintext against a stored hash.
//!
//! Both operations call `bcrypt`; what a verification returns for a given
//! secret and encoded hash is named by `bcrypt_verdict`, and the library's
//! own contracts are stated over that name. Verification fails closed on a
//! malformed encoded hash.

use vstd::prelude::*;
use crate::errors::AppError;

verus! {

/// The smallest cost factor `bcrypt` accepts.
pub const MIN_HASH_COST: u32 = 4;

/// The largest cost factor `bcrypt` accepts.
pub const MAX_HASH_COST: u32 = 31;

/// What `bcrypt::verify(secret, hashed)` returns: `None` when the encoded
/// hash is malformed or carries an out-of-range cost, otherwise
/// `Some(b)` where `b` says whether the secret matches the hash. This is a
/// function of the secret and the encoded hash alone.
pub uninterp spec fn bcrypt_verdict(secret: Seq<char>, hashed: Seq<char>) -> Option<bool>;

/// Relies on `bcrypt::hash`: on success the result is a 60-character
/// encoded hash (algorithm, cost, fresh random salt, digest) that
/// `bcrypt::verify` accepts and matches against exactly the secret that
/// produced it. Fails only if the cost is out of range or the randomness
/// source fails.
#[verifier::external_body]
fn bcrypt_hash(secret: &str, cost: u32) -> (r: Option<String>)
    requires
        MIN_HASH_COST <= cost <= MAX_HASH_COST,
    ensures
        r matches Some(h) ==> {
            &&& h@.len() == 60
            &&& bcrypt_verdict(secret@, h@) == Some(true)
        },
{
    bcrypt::hash(secret, cost).ok()
}

/// Relies on `bcrypt::verify`: recomputes the digest from the secret and
/// the salt and cost embedded in the encoded hash, and compares in constant
/// time. Returns `None` exactly when the encoded hash is rejected as
/// malformed.
#[verifier::external_body]
fn bcrypt_check(secret: &str, hashed: &str) -> (r: Option<bool>)
    ensures
        r == bcrypt_verdict(secret@, hashed@),
{
    bcrypt::verify(secret, hashed).ok()
}

/// Hashes `secret` with the given cost. The encoded result embeds a fresh
/// salt, so two calls on the same secret need not return equal strings,
/// yet every result matches the secret under `verify_secret`.
pub fn hash_secret(secret: &str, cost: u32) -> (r: Result<String, AppError>)
    requires
        MIN_HASH_COST <= cost <= MAX_HASH_COST,
    ensures
        r matches Ok(h) ==> {
            &&& h@.len() == 60
            &&& bcrypt_verdict(secret@, h@) == Some(true)
        },
        r matches Err(e) ==> e is InternalServerError && e.msg_view() == "Hashing failed"@,
{
    match bcrypt_hash(secret, cost) {
        Some(h) => Ok(h),
        None => Err(AppError::InternalServerError(String::from_str("Hashing failed"))),
    }
}

/// Verifies `secret` against a stored encoded hash. A malformed stored
/// hash fails closed as an internal error rather than panicking; otherwise
/// the answer is exactly the `bcrypt` verdict.
pub fn verify_secret(secret: &str, hashed: &str) -> (r: Result<bool, AppError>)
    ensures
        match r {
            Ok(b) => bcrypt_verdict(secret@, hashed@) == Some(b),
            Err(e) => {
                &&& bcrypt_verdict(secret@, hashed@) is None
                &&& e is InternalServerError
                &&& e.msg_view() == "Password verification error"@
            },
        },
{
    match bcrypt_check(secret, hashed) {
        Some(b) => Ok(b),
        None => Err(AppError::InternalServerError(String::from_str(
            "Password verification error",
        ))),
    }
}

/// Every hash produced from a secret verifies against that same secret:
/// for any hash that `hash_secret` can return for `secret`, the only
/// outcome that `verify_secret`'s contract admits for the same secret is
/// `Ok(true)` — never a mismatch and never a malformed-hash failure.
pub proof fn lemma_hash_verifies(secret: Seq<char>, hashed: Seq<char>, r: Result<bool, AppError>)
    requires
        bcrypt_verdict(secret, hashed) == Some(true),
        match r {
            Ok(b) => bcrypt_verdict(secret, hashed) == Some(b),
            Err(_) => bcrypt_verdict(secret, hashed) is None,
        },
    ensures
        r matches Ok(true),
{
}

} // verus!
