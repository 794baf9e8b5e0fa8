//! Auth gate: the per-request interceptor that extracts a bearer token,
//! validates it, and either binds the resulting claim to the request's
//! authorization context or rejects the request before any handler runs.
//!
//! Per request the machine is: unauthenticated, then token-present once a
//! bearer credential is extracted, then authorized or rejected after
//! validation.

use vstd::prelude::*;
use crate::errors::AppError;
use crate::token::{Claims, jwt_claims_of, spec_validate, validate_token};

verus! {

/// Request-scoped association between a validated claim and the in-flight
/// request. Owned by that request alone; handlers read the subject from
/// here instead of re-parsing the header.
pub struct AuthContext {
    /// The validated claim bound to this request.
    pub claims: Claims,
}

impl AuthContext {
    /// The subject identifier bound to this request on authorization.
    pub fn subject(&self) -> (s: &String)
        ensures
            s@ == self.claims.sub@,
    {
        &self.claims.sub
    }
}

/// The auth verdict on one request.
pub enum AuthDecision {
    /// The credential validated; the claim is bound to the request.
    Authorized(AuthContext),
    /// The request is short-circuited before reaching any handler.
    Rejected(AppError),
}

/// Why a request was rejected, kept distinguishable for the contracts even
/// though both reasons surface as the same authorization failure.
#[derive(PartialEq, Eq, Structural, Clone, Copy, Debug)]
pub enum GateReason {
    /// No `Authorization` header, or one that is not a bearer credential.
    MissingCredential,
    /// A bearer token was present but failed validation.
    InvalidCredential,
}

/// The token carried by an `Authorization` header value: the part after
/// the `Bearer ` scheme prefix, when the prefix is there and the token is
/// non-empty.
pub open spec fn bearer_token_of(header: Seq<char>) -> Option<Seq<char>> {
    if header.len() > 7 && header.subrange(0, 7) == "Bearer "@ {
        Some(header.skip(7))
    } else {
        None
    }
}

/// The authorization decision as a function of the header, the instant and the
/// key: no bearer credential is a missing credential; a credential that
/// fails validation (malformed, bad signature or expired) is an invalid
/// credential; otherwise the decoded subject and expiry are authorized.
pub open spec fn spec_authorize(header: Option<Seq<char>>, now: u64, key: Seq<char>) -> Result<
    (Seq<char>, u64),
    GateReason,
> {
    match header {
        None => Err(GateReason::MissingCredential),
        Some(h) => match bearer_token_of(h) {
            None => Err(GateReason::MissingCredential),
            Some(t) => match spec_validate(jwt_claims_of(t, key), now) {
                Ok((sub, exp)) => Ok((sub, exp)),
                Err(_) => Err(GateReason::InvalidCredential),
            },
        },
    }
}

/// The view of an optional header value.
pub open spec fn header_view(header: Option<&str>) -> Option<Seq<char>> {
    match header {
        None => None,
        Some(h) => Some(h@),
    }
}

/// Extracts the bearer token from an `Authorization` header value.
fn extract_bearer<'a>(header: &'a str) -> (r: Option<&'a str>)
    ensures
        match r {
            Some(t) => bearer_token_of(header@) == Some(t@),
            None => bearer_token_of(header@) is None,
        },
{
    proof {
        reveal_strlit("Bearer ");
    }
    let len = header.unicode_len();
    if len <= 7 {
        return None;
    }
    let expected = ['B', 'e', 'a', 'r', 'e', 'r', ' '];
    let mut i: usize = 0;
    while i < 7
        invariant
            i <= 7,
            len == header@.len(),
            len > 7,
            expected@ == "Bearer "@,
            forall|j: int| 0 <= j < i ==> header@[j] == "Bearer "@[j],
        decreases 7 - i,
    {
        if header.get_char(i) != expected[i] {
            assert(header@.subrange(0, 7)[i as int] != "Bearer "@[i as int]);
            return None;
        }
        i += 1;
    }
    assert(header@.subrange(0, 7) =~= "Bearer "@);
    Some(header.substring_char(7, len))
}

/// Authorizes one request: extracts the bearer credential from the
/// `Authorization` header value, validates it at instant `now` under
/// `key`, and authorizes or rejects. The decision is exactly
/// `spec_authorize`, and a rejection always carries an authorization
/// failure with the reason's safe message.
pub fn authorize(header: Option<&str>, now: u64, key: &str) -> (d: AuthDecision)
    ensures
        match d {
            AuthDecision::Authorized(ctx) => {
                &&& spec_authorize(header_view(header), now, key@) == Ok::<_, GateReason>((
                    ctx.claims.sub@,
                    ctx.claims.exp,
                ))
                &&& ctx.claims.exp > now
            },
            AuthDecision::Rejected(e) => {
                &&& e is Unauthorized
                &&& spec_authorize(header_view(header), now, key@) matches Err(reason)
                &&& (reason == GateReason::MissingCredential ==> e.msg_view()
                    == "missing credential"@)
                &&& (reason == GateReason::InvalidCredential ==> e.msg_view()
                    == "invalid or expired credential"@)
            },
        },
{
    let h = match header {
        None => {
            return AuthDecision::Rejected(AppError::Unauthorized(String::from_str(
                "missing credential",
            )));
        },
        Some(h) => h,
    };
    let token = match extract_bearer(h) {
        None => {
            return AuthDecision::Rejected(AppError::Unauthorized(String::from_str(
                "missing credential",
            )));
        },
        Some(t) => t,
    };
    match validate_token(token, now, key) {
        Ok(claims) => AuthDecision::Authorized(AuthContext { claims }),
        Err(_) => AuthDecision::Rejected(AppError::Unauthorized(String::from_str(
            "invalid or expired credential",
        ))),
    }
}

/// A bearer header built from a token carries exactly that token, so a
/// request presenting `Bearer t`, where `t` decodes under the key to an
/// unexpired claim, is authorized with exactly the subject and expiry the
/// token encodes — in particular one issued moments before.
pub proof fn lemma_bearer_header_authorizes(t: Seq<char>, key: Seq<char>, sub: Seq<char>, exp: u64, now: u64)
    requires
        t.len() > 0,
        jwt_claims_of(t, key) == Some((sub, exp)),
        exp > now,
    ensures
        spec_authorize(Some("Bearer "@ + t), now, key) == Ok::<_, GateReason>((sub, exp)),
{
    reveal_strlit("Bearer ");
    let h = "Bearer "@ + t;
    assert(h.subrange(0, 7) =~= "Bearer "@);
    assert(h.skip(7) =~= t);
}

} // verus!
