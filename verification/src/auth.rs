//! Login and registration flows: the decision logic between the boundary,
//! the credential hasher, the token codec, the duplicate-registration
//! cache and the identity store.
//!
//! The store itself is an external collaborator: the caller fetches the
//! stored credential before `login_attempt`, and performs the atomic
//! insert-if-absent between `register_precheck` and `register_complete`.

use vstd::prelude::*;
use crate::cache::ExistenceCache;
use crate::errors::AppError;
use crate::hashing::{bcrypt_verdict, verify_secret};
use crate::token::{generate_token, jwt_claims_of};
use crate::url::{is_space_char, space_char};

verus! {

/// How long a token issued at login stays valid: seven days.
pub const LOGIN_TTL_SECONDS: u64 = 604800;

/// How long a token issued at registration stays valid: one hour.
pub const REGISTER_TTL_SECONDS: u64 = 3600;

/// Credentials presented at login or registration.
pub struct AuthRequest {
    /// The login identifier.
    pub email: String,
    /// The plaintext secret; never stored, never echoed.
    pub password: String,
}

/// What a successful login or registration returns.
pub struct AuthResponse {
    /// The login identifier the token speaks for.
    pub email: String,
    /// The issued bearer token.
    pub token: String,
}

/// The stored credential hash of an identity, as fetched from the store.
pub struct GetUserPassword {
    /// The encoded credential hash.
    pub password: String,
}

/// The address splits at position `i`: exactly one `@`, with a non-empty
/// name before it and a domain after it that carries an interior dot, and
/// no whitespace anywhere.
pub open spec fn is_email_split(s: Seq<char>, i: int) -> bool {
    &&& 0 < i < s.len()
    &&& s[i] == '@'
    &&& (forall|j: int| 0 <= j < s.len() && j != i ==> s[j] != '@')
    &&& (forall|j: int| 0 <= j < s.len() ==> !is_space_char(s[j]))
    &&& (exists|k: int| i + 1 < k < s.len() - 1 && s[k] == '.')
}

/// A well-formed login identifier: name, a single `@`, and a dotted
/// domain, with no whitespace.
pub open spec fn is_valid_email(s: Seq<char>) -> bool {
    exists|i: int| is_email_split(s, i)
}

/// A well-formed secret: between 8 and 32 characters.
pub open spec fn is_valid_password(s: Seq<char>) -> bool {
    8 <= s.len() <= 32
}

/// Both fields of the request are well formed.
pub open spec fn is_valid_auth_request(req: AuthRequest) -> bool {
    is_valid_email(req.email@) && is_valid_password(req.password@)
}

/// The position of the first `@` in `s`, if any.
fn find_at(s: &str) -> (r: Option<usize>)
    ensures
        match r {
            Some(i) => i < s@.len() && s@[i as int] == '@' && (forall|j: int|
                0 <= j < i ==> s@[j] != '@'),
            None => forall|j: int| 0 <= j < s@.len() ==> s@[j] != '@',
        },
{
    let len = s.unicode_len();
    let mut i: usize = 0;
    while i < len
        invariant
            i <= len,
            len == s@.len(),
            forall|j: int| 0 <= j < i ==> s@[j] != '@',
        decreases len - i,
    {
        if s.get_char(i) == '@' {
            return Some(i);
        }
        i += 1;
    }
    None
}

/// Checks that `s` is a well-formed login identifier.
pub fn check_email(s: &str) -> (r: bool)
    ensures
        r == is_valid_email(s@),
{
    let len = s.unicode_len();
    let at = match find_at(s) {
        None => {
            assert(!is_valid_email(s@)) by {
                if is_valid_email(s@) {
                    let i = choose|i: int| is_email_split(s@, i);
                    assert(s@[i] != '@');
                    assert(false);
                }
            }
            return false;
        },
        Some(a) => a,
    };
    if at == 0 {
        assert(!is_valid_email(s@)) by {
            if is_valid_email(s@) {
                let i = choose|i: int| is_email_split(s@, i);
                if i != at {
                    assert(s@[at as int] != '@');
                }
                assert(false);
            }
        }
        return false;
    }
    let mut j: usize = at + 1;
    while j < len
        invariant
            at < j <= len,
            len == s@.len(),
            0 < at < len,
            s@[at as int] == '@',
            forall|jj: int| 0 <= jj < at ==> s@[jj] != '@',
            forall|jj: int| at < jj < j ==> s@[jj] != '@',
        decreases len - j,
    {
        if s.get_char(j) == '@' {
            assert(!is_valid_email(s@)) by {
                if is_valid_email(s@) {
                    let i = choose|i: int| is_email_split(s@, i);
                    assert(is_email_split(s@, i));
                    if i != at {
                        assert(0 <= (at as int) < s@.len() && (at as int) != i);
                        assert(s@[at as int] != '@');
                        assert(false);
                    }
                    assert(0 <= (j as int) < s@.len() && (j as int) != i);
                    assert(s@[j as int] != '@');
                    assert(false);
                }
            }
            return false;
        }
        j += 1;
    }
    let mut m: usize = 0;
    while m < len
        invariant
            m <= len,
            len == s@.len(),
            forall|mm: int| 0 <= mm < m ==> !is_space_char(s@[mm]),
        decreases len - m,
    {
        if space_char(s.get_char(m)) {
            assert(!is_valid_email(s@)) by {
                if is_valid_email(s@) {
                    let i = choose|i: int| is_email_split(s@, i);
                    assert(!is_space_char(s@[m as int]));
                    assert(false);
                }
            }
            return false;
        }
        m += 1;
    }
    if len - at < 4 {
        assert(!is_valid_email(s@)) by {
            if is_valid_email(s@) {
                let i = choose|i: int| is_email_split(s@, i);
                if i != at {
                    assert(s@[at as int] != '@');
                }
                let k = choose|k: int| i + 1 < k < s@.len() - 1 && s@[k] == '.';
                assert(false);
            }
        }
        return false;
    }
    let mut k: usize = at + 2;
    while k + 1 < len
        invariant
            at + 2 <= k <= len,
            k + 1 <= len,
            len == s@.len(),
            len >= at + 4,
            0 < at < len,
            s@[at as int] == '@',
            forall|jj: int| 0 <= jj < at ==> s@[jj] != '@',
            forall|jj: int| at < jj < len ==> s@[jj] != '@',
            forall|mm: int| 0 <= mm < len ==> !is_space_char(s@[mm]),
            forall|kk: int| at + 2 <= kk < k ==> s@[kk] != '.',
        decreases len - k,
    {
        if s.get_char(k) == '.' {
            assert(is_email_split(s@, at as int)) by {
                assert(0 < (at as int) < s@.len());
                assert(s@[at as int] == '@');
                assert(forall|j2: int| 0 <= j2 < s@.len() && j2 != at as int ==> s@[j2] != '@');
                assert(forall|j2: int| 0 <= j2 < s@.len() ==> !is_space_char(s@[j2]));
                assert(exists|k2: int| at + 1 < k2 < s@.len() - 1 && s@[k2] == '.') by {
                    assert(at + 1 < (k as int) < s@.len() - 1 && s@[k as int] == '.');
                }
            }
            return true;
        }
        k += 1;
    }
    assert(!is_valid_email(s@)) by {
        if is_valid_email(s@) {
            let i = choose|i: int| is_email_split(s@, i);
            if i != at {
                assert(s@[at as int] != '@');
            }
            let kk = choose|kk: int| i + 1 < kk < s@.len() - 1 && s@[kk] == '.';
            assert(s@[kk] != '.');
            assert(false);
        }
    }
    false
}

/// Rejects a request whose login identifier or secret is malformed, with
/// the field-specific message; accepts exactly the well-formed requests.
pub fn validate_auth_request(req: &AuthRequest) -> (r: Result<(), AppError>)
    ensures
        r is Ok <==> is_valid_auth_request(*req),
        r matches Err(e) ==> {
            &&& e is BadRequest
            &&& (!is_valid_email(req.email@) ==> e.msg_view() == "Invalid email format"@)
            &&& (is_valid_email(req.email@) ==> e.msg_view()
                == "Password must be between 8 and 32 characters"@)
        },
{
    if !check_email(req.email.as_str()) {
        return Err(AppError::BadRequest(String::from_str("Invalid email format")));
    }
    let plen = req.password.as_str().unicode_len();
    if plen < 8 || plen > 32 {
        return Err(AppError::BadRequest(String::from_str(
            "Password must be between 8 and 32 characters",
        )));
    }
    Ok(())
}

/// One login attempt: validates the request, then holds the presented
/// secret against the stored credential fetched by the caller, and on a
/// match issues a seven-day token for the login identifier.
///
/// A malformed request is a caller error; an absent identity is not
/// found; a secret that does not match is unauthorized; a malformed
/// stored hash is internal. On a matching secret success is owed: the
/// result carries the login identifier and a token that decodes to it.
pub fn login_attempt(req: &AuthRequest, stored: Option<&GetUserPassword>, now: u64, key: &str) -> (r:
    Result<AuthResponse, AppError>)
    requires
        now + LOGIN_TTL_SECONDS <= u64::MAX,
    ensures
        !is_valid_auth_request(*req) ==> (r matches Err(e) && e is BadRequest),
        is_valid_auth_request(*req) && stored is None ==> (r matches Err(e) && e is NotFound),
        stored matches Some(u) ==> is_valid_auth_request(*req) ==> match bcrypt_verdict(
            req.password@,
            u.password@,
        ) {
            None => r matches Err(e) && e is InternalServerError,
            Some(false) => r matches Err(e) && e is Unauthorized,
            Some(true) => r matches Ok(resp) && {
                &&& resp.email@ == req.email@
                &&& jwt_claims_of(resp.token@, key@) == Some((
                    req.email@,
                    (now + LOGIN_TTL_SECONDS) as u64,
                ))
            },
        },
        r matches Err(e) ==> {
            &&& (e is NotFound ==> e.msg_view() == "Email not found"@)
            &&& (e is Unauthorized ==> e.msg_view() == "Invalid password"@)
            &&& (e is InternalServerError ==> e.msg_view() == "Password verification error"@)
            &&& (e is BadRequest && !is_valid_email(req.email@) ==> e.msg_view()
                == "Invalid email format"@)
            &&& (e is BadRequest && is_valid_email(req.email@) ==> e.msg_view()
                == "Password must be between 8 and 32 characters"@)
        },
{
    validate_auth_request(req)?;
    let user = match stored {
        None => {
            return Err(AppError::NotFound(String::from_str("Email not found")));
        },
        Some(u) => u,
    };
    let is_valid = match verify_secret(req.password.as_str(), user.password.as_str()) {
        Ok(b) => b,
        Err(e) => {
            return Err(e);
        },
    };
    if !is_valid {
        return Err(AppError::Unauthorized(String::from_str("Invalid password")));
    }
    let token = match generate_token(req.email.as_str(), now, LOGIN_TTL_SECONDS, key) {
        Ok(t) => t,
        Err(e) => {
            return Err(e);
        },
    };
    Ok(AuthResponse { email: req.email.clone(), token })
}

/// The pre-store step of registration: validates the request and consults
/// the duplicate-registration cache. A cached identifier short-circuits
/// with a conflict; otherwise the caller must still perform the
/// authoritative insert-if-absent at the store — a miss here never skips
/// that check. Probing may run the cache's own maintenance, which can
/// only evict.
pub fn register_precheck(req: &AuthRequest, cache: &mut ExistenceCache) -> (r: Result<
    (),
    AppError,
>)
    ensures
        final(cache).bound() == old(cache).bound(),
        final(cache).keys().subset_of(old(cache).keys()),
        old(cache).keys().len() <= old(cache).bound() ==> final(cache).keys() == old(cache).keys(),
        r is Ok <==> is_valid_auth_request(*req) && !final(cache).keys().contains(req.email@),
        !is_valid_auth_request(*req) ==> (r matches Err(e) && {
            &&& e is BadRequest
            &&& (!is_valid_email(req.email@) ==> e.msg_view() == "Invalid email format"@)
            &&& (is_valid_email(req.email@) ==> e.msg_view()
                == "Password must be between 8 and 32 characters"@)
        }),
        is_valid_auth_request(*req) && final(cache).keys().contains(req.email@) ==> (r matches Err(
            e,
        ) && e is Conflict && e.msg_view() == "Email exists (cached)"@),
{
    validate_auth_request(req)?;
    if cache.probably_exists(req.email.as_str()) {
        return Err(AppError::Conflict(String::from_str("Email exists (cached)")));
    }
    Ok(())
}

/// The post-store step of registration: turns the store's insert-if-absent
/// verdict into the response. A losing insert is a conflict and leaves the
/// cache untouched; a winning insert marks the identifier in the cache and
/// is owed its response — the login identifier and a one-hour token that
/// decodes to it.
pub fn register_complete(email: &str, inserted: bool, cache: &mut ExistenceCache, now: u64, key:
    &str) -> (r: Result<AuthResponse, AppError>)
    requires
        now + REGISTER_TTL_SECONDS <= u64::MAX,
    ensures
        !inserted ==> (r matches Err(e) && e is Conflict && e.msg_view()
            == "Email already exists"@) && *final(cache) == *old(cache),
        inserted ==> {
            &&& final(cache).bound() == old(cache).bound()
            &&& final(cache).keys().subset_of(old(cache).keys().insert(email@))
            &&& old(cache).keys().len() < old(cache).bound() ==> final(cache).keys() == old(
                cache,
            ).keys().insert(email@)
            &&& r matches Ok(resp) && {
                &&& resp.email@ == email@
                &&& jwt_claims_of(resp.token@, key@) == Some((
                    email@,
                    (now + REGISTER_TTL_SECONDS) as u64,
                ))
            }
        },
{
    if !inserted {
        return Err(AppError::Conflict(String::from_str("Email already exists")));
    }
    cache.mark_exists(email);
    let token = match generate_token(email, now, REGISTER_TTL_SECONDS, key) {
        Ok(t) => t,
        Err(e) => {
            return Err(e);
        },
    };
    Ok(AuthResponse { email: String::from_str(email), token })
}

} // verus!
