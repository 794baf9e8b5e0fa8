//! Token codec: issues and validates a signed, time-bounded identity
//! assertion with a symmetric process-wide key.
//!
//! Signing and signature checking are done by `jsonwebtoken`; what a token
//! decodes to under a key is named by `jwt_claims_of`, and every rule about
//! expiry and rejection is verified logic over that name.

use vstd::prelude::*;
use crate::errors::AppError;

verus! {

/// The identity assertion carried by a token: who it speaks for and the
/// absolute second at which it stops being valid.
pub struct Claims {
    /// Subject: the login identifier the token speaks for.
    pub sub: String,
    /// Expiry: seconds since the epoch; the token is valid strictly before
    /// this instant.
    pub exp: u64,
}

/// Why a token failed validation. Both reasons surface to the caller as the
/// same authorization failure; they stay distinguishable here for
/// observability.
#[derive(PartialEq, Eq, Structural, Clone, Copy, Debug)]
pub enum TokenError {
    /// The claim decoded under the key but its expiry is at or before now.
    Expired,
    /// Malformed encoding or a signature that does not verify.
    Invalid,
}

/// What a token decodes to under a signing key: `Some((subject, expiry))`
/// when the encoding is well formed and the signature verifies, `None`
/// otherwise. This is a function of the token and key alone.
pub uninterp spec fn jwt_claims_of(token: Seq<char>, key: Seq<char>) -> Option<(Seq<char>, u64)>;

/// Relies on `jsonwebtoken::encode` with an HS256 header: the result is a
/// token that `jsonwebtoken::decode` under the same secret turns back into
/// exactly the claims given here. For this use the call always succeeds:
/// a secret key passes the algorithm-family check, HMAC accepts any key
/// length and its signing step is infallible, and serializing the two
/// claims cannot fail (the `rust_crypto` feature supplies the signer).
#[verifier::external_body]
fn encode_claims(sub: &str, exp: u64, key: &str) -> (r: Option<String>)
    ensures
        r is Some,
        r matches Some(t) ==> jwt_claims_of(t@, key@) == Some((sub@, exp)),
{
    let mut m = serde_json::Map::new();
    m.insert("sub".to_string(), serde_json::Value::from(sub));
    m.insert("exp".to_string(), serde_json::Value::from(exp));
    jsonwebtoken::encode(
        &jsonwebtoken::Header::default(),
        &serde_json::Value::Object(m),
        &jsonwebtoken::EncodingKey::from_secret(key.as_bytes()),
    )
    .ok()
}

/// Relies on `jsonwebtoken::decode`: checks the encoding and the HS256
/// signature under the secret and returns the claims, without any expiry
/// check (expiry is validated by this library's own logic).
#[verifier::external_body]
fn decode_claims(token: &str, key: &str) -> (r: Option<Claims>)
    ensures
        r matches Some(c) ==> jwt_claims_of(token@, key@) == Some((c.sub@, c.exp)),
        r is None ==> jwt_claims_of(token@, key@) is None,
{
    let mut validation = jsonwebtoken::Validation::new(jsonwebtoken::Algorithm::HS256);
    validation.validate_exp = false;
    validation.required_spec_claims = std::collections::HashSet::new();
    let data = jsonwebtoken::decode::<serde_json::Value>(
        token,
        &jsonwebtoken::DecodingKey::from_secret(key.as_bytes()),
        &validation,
    )
    .ok()?;
    let sub = data.claims.get("sub")?.as_str()?.to_string();
    let exp = data.claims.get("exp")?.as_u64()?;
    Some(Claims { sub, exp })
}

/// The outcome of validating a decoded claim at instant `now`: a missing
/// decode is invalid, an expiry at or before `now` is expired, anything
/// else passes with exactly the decoded subject and expiry.
pub open spec fn spec_validate(decoded: Option<(Seq<char>, u64)>, now: u64) -> Result<
    (Seq<char>, u64),
    TokenError,
> {
    match decoded {
        None => Err(TokenError::Invalid),
        Some((sub, exp)) => if exp <= now {
            Err(TokenError::Expired)
        } else {
            Ok((sub, exp))
        },
    }
}

/// Issues a token for `email` that expires `ttl_seconds` after `now`.
/// Issuance always succeeds: the signing call is infallible for a
/// symmetric key.
pub fn generate_token(email: &str, now: u64, ttl_seconds: u64, key: &str) -> (r: Result<
    String,
    AppError,
>)
    requires
        now + ttl_seconds <= u64::MAX,
    ensures
        r is Ok,
        r matches Ok(t) ==> jwt_claims_of(t@, key@) == Some((email@, (now + ttl_seconds) as u64)),
{
    let exp = now + ttl_seconds;
    match encode_claims(email, exp, key) {
        Some(t) => Ok(t),
        None => Err(AppError::InternalServerError(String::from_str("Token generation error"))),
    }
}

/// Validates `token` under `key` at instant `now`: the outcome is exactly
/// `spec_validate` of what the token decodes to.
pub fn validate_token(token: &str, now: u64, key: &str) -> (r: Result<Claims, TokenError>)
    ensures
        match r {
            Ok(c) => spec_validate(jwt_claims_of(token@, key@), now) == Ok::<_, TokenError>((
                c.sub@,
                c.exp,
            )),
            Err(e) => spec_validate(jwt_claims_of(token@, key@), now) == Err::<(Seq<char>, u64), _>(
                e,
            ),
        },
{
    match decode_claims(token, key) {
        None => Err(TokenError::Invalid),
        Some(c) => {
            if c.exp <= now {
                Err(TokenError::Expired)
            } else {
                Ok(c)
            }
        },
    }
}

/// A token whose claims decode to `(sub, exp)` under `key` validates
/// successfully at any instant strictly before `exp`, and yields exactly
/// that subject. In particular a freshly issued token, whose expiry is
/// strictly in the future, validates immediately after issuance.
pub proof fn lemma_fresh_token_validates(token: Seq<char>, key: Seq<char>, sub: Seq<char>, exp: u64, now: u64)
    requires
        jwt_claims_of(token, key) == Some((sub, exp)),
        now < exp,
    ensures
        spec_validate(jwt_claims_of(token, key), now) == Ok::<_, TokenError>((sub, exp)),
{
}

/// A token whose claims decode under the key always fails with the expired
/// condition, never the invalid one, when validated at or after its expiry
/// instant.
pub proof fn lemma_expired_token_fails_as_expired(token: Seq<char>, key: Seq<char>, sub: Seq<char>, exp: u64, now: u64)
    requires
        jwt_claims_of(token, key) == Some((sub, exp)),
        exp <= now,
    ensures
        spec_validate(jwt_claims_of(token, key), now) == Err::<(Seq<char>, u64), _>(
            TokenError::Expired,
        ),
        spec_validate(jwt_claims_of(token, key), now) != Err::<(Seq<char>, u64), _>(
            TokenError::Invalid,
        ),
{
}

} // verus!
