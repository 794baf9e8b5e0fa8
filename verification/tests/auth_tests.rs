//! Credential hashing, token codec, auth gate, cache and the login and
//! registration flows, exercised against the real outside crates.

use std::collections::HashMap;

use fitbyte::auth::{
    login_attempt, register_complete, register_precheck, AuthRequest, GetUserPassword,
};
use fitbyte::cache::ExistenceCache;
use fitbyte::gate::{authorize, AuthDecision};
use fitbyte::hashing::{hash_secret, verify_secret};
use fitbyte::token::{generate_token, validate_token, TokenError};
use fitbyte::AppError;

const KEY: &str = "test-signing-key";
const NOW: u64 = 1_700_000_000;

#[test]
fn hash_then_verify_succeeds() {
    let h = hash_secret("correct horse", 4).unwrap();
    assert_eq!(h.len(), 60);
    assert!(verify_secret("correct horse", &h).unwrap());
}

#[test]
fn verify_rejects_wrong_secret() {
    let h = hash_secret("first secret", 4).unwrap();
    assert!(!verify_secret("second secret", &h).unwrap());
}

#[test]
fn hashes_are_salted() {
    let h1 = hash_secret("same secret", 4).unwrap();
    let h2 = hash_secret("same secret", 4).unwrap();
    assert_ne!(h1, h2);
    assert!(verify_secret("same secret", &h1).unwrap());
    assert!(verify_secret("same secret", &h2).unwrap());
}

#[test]
fn malformed_hash_fails_closed() {
    let r = verify_secret("whatever", "not-an-encoded-hash");
    match r {
        Err(e) => assert_eq!(e.status_code(), 500),
        Ok(_) => panic!("malformed hash must not verify"),
    }
}

#[test]
fn fresh_token_validates_with_same_subject() {
    let t = generate_token("user@example.com", NOW, 3600, KEY).unwrap();
    let c = validate_token(&t, NOW + 1, KEY).unwrap();
    assert_eq!(c.sub.as_str(), "user@example.com");
    assert_eq!(c.exp, NOW + 3600);
}

#[test]
fn expired_token_fails_as_expired() {
    let t = generate_token("user@example.com", NOW, 3600, KEY).unwrap();
    assert!(matches!(validate_token(&t, NOW + 3600, KEY), Err(TokenError::Expired)));
    assert!(matches!(validate_token(&t, NOW + 7200, KEY), Err(TokenError::Expired)));
    assert!(validate_token(&t, NOW + 3599, KEY).is_ok());
}

#[test]
fn wrong_key_token_is_invalid() {
    let t = generate_token("user@example.com", NOW, 3600, KEY).unwrap();
    assert!(matches!(validate_token(&t, NOW + 1, "other-key"), Err(TokenError::Invalid)));
}

#[test]
fn garbage_token_is_invalid() {
    assert!(matches!(validate_token("not.a.token", NOW, KEY), Err(TokenError::Invalid)));
    assert!(matches!(validate_token("", NOW, KEY), Err(TokenError::Invalid)));
}

#[test]
fn gate_rejects_missing_header() {
    match authorize(None, NOW, KEY) {
        AuthDecision::Rejected(e) => {
            assert_eq!(e.status_code(), 401);
            assert_eq!(e.message().as_str(), "missing credential");
        }
        AuthDecision::Authorized(_) => panic!("no header must not authorize"),
    }
}

#[test]
fn gate_rejects_non_bearer_header() {
    match authorize(Some("Basic dXNlcjpwdw=="), NOW, KEY) {
        AuthDecision::Rejected(e) => assert_eq!(e.message().as_str(), "missing credential"),
        AuthDecision::Authorized(_) => panic!("non-bearer header must not authorize"),
    }
}

#[test]
fn gate_rejects_wrong_signature() {
    let t = generate_token("user@example.com", NOW, 3600, "another-key").unwrap();
    let header = format!("Bearer {}", t);
    match authorize(Some(&header), NOW + 1, KEY) {
        AuthDecision::Rejected(e) => {
            assert_eq!(e.status_code(), 401);
            assert_eq!(e.message().as_str(), "invalid or expired credential");
        }
        AuthDecision::Authorized(_) => panic!("wrong signature must not authorize"),
    }
}

#[test]
fn gate_rejects_expired_token() {
    let t = generate_token("user@example.com", NOW, 60, KEY).unwrap();
    let header = format!("Bearer {}", t);
    match authorize(Some(&header), NOW + 61, KEY) {
        AuthDecision::Rejected(e) => assert_eq!(e.message().as_str(), "invalid or expired credential"),
        AuthDecision::Authorized(_) => panic!("expired token must not authorize"),
    }
}

#[test]
fn gate_authorizes_valid_token_with_exact_subject() {
    let t = generate_token("user@example.com", NOW, 3600, KEY).unwrap();
    let header = format!("Bearer {}", t);
    match authorize(Some(&header), NOW + 1, KEY) {
        AuthDecision::Authorized(ctx) => {
            assert_eq!(ctx.subject().as_str(), "user@example.com");
            assert_eq!(ctx.claims.exp, NOW + 3600);
        }
        AuthDecision::Rejected(e) => panic!("valid token rejected: {}", e.message()),
    }
}

#[test]
fn cache_mark_then_probe() {
    let mut cache = ExistenceCache::new(100);
    assert!(!cache.probably_exists("u1@example.com"));
    cache.mark_exists("u1@example.com");
    assert!(cache.probably_exists("u1@example.com"));
    assert!(!cache.probably_exists("u2@example.com"));
}

#[test]
fn login_rejects_malformed_request() {
    let req = AuthRequest { email: "not-an-email".to_string(), password: "p1secret".to_string() };
    let r = login_attempt(&req, None, NOW, KEY);
    match r {
        Err(e) => {
            assert_eq!(e.status_code(), 400);
            assert_eq!(e.message().as_str(), "Invalid email format");
        }
        Ok(_) => panic!("malformed email must not log in"),
    }
    let req = AuthRequest { email: "u@example.com".to_string(), password: "short".to_string() };
    match login_attempt(&req, None, NOW, KEY) {
        Err(e) => assert_eq!(e.message().as_str(), "Password must be between 8 and 32 characters"),
        Ok(_) => panic!("short password must not log in"),
    }
}

#[test]
fn login_unknown_email_is_not_found() {
    let req = AuthRequest { email: "u@example.com".to_string(), password: "p1secret".to_string() };
    match login_attempt(&req, None, NOW, KEY) {
        Err(e) => assert_eq!(e.status_code(), 404),
        Ok(_) => panic!("unknown email must not log in"),
    }
}

#[test]
fn two_registrations_for_one_unmarked_key() {
    // The cache starts without the key, so both attempts pass the
    // precheck and both must still go to the store; the store's atomic
    // insert-if-absent lets exactly one through.
    let mut cache = ExistenceCache::new(100);
    let req = AuthRequest { email: "u1@example.com".to_string(), password: "p1secret".to_string() };
    assert!(register_precheck(&req, &mut cache).is_ok());
    assert!(register_precheck(&req, &mut cache).is_ok());

    let mut store: HashMap<String, String> = HashMap::new();
    let hash = hash_secret(&req.password, 4).unwrap();
    let first_inserted = store.insert(req.email.clone(), hash.clone()).is_none();
    let second_inserted = store.insert(req.email.clone(), hash).is_none();
    assert!(first_inserted);
    assert!(!second_inserted);

    assert!(register_complete(&req.email, first_inserted, &mut cache, NOW, KEY).is_ok());
    match register_complete(&req.email, second_inserted, &mut cache, NOW, KEY) {
        Err(e) => assert_eq!(e.status_code(), 409),
        Ok(_) => panic!("losing insert must be a conflict"),
    }
}

#[test]
fn end_to_end_register_then_login() {
    let mut cache = ExistenceCache::new(100);
    let mut store: HashMap<String, String> = HashMap::new();
    let req = AuthRequest { email: "u1@example.com".to_string(), password: "p1secret".to_string() };

    // Register u1 with p1: succeeds and returns a token for u1.
    assert!(register_precheck(&req, &mut cache).is_ok());
    let stored_hash = hash_secret(&req.password, 4).unwrap();
    let inserted = store.insert(req.email.clone(), stored_hash).is_none();
    let resp = register_complete(&req.email, inserted, &mut cache, NOW, KEY).unwrap();
    assert_eq!(resp.email.as_str(), "u1@example.com");
    let claims = validate_token(&resp.token, NOW + 1, KEY).unwrap();
    assert_eq!(claims.sub.as_str(), "u1@example.com");

    // Register u1 again: the cache short-circuits with a conflict.
    match register_precheck(&req, &mut cache) {
        Err(e) => {
            assert_eq!(e.status_code(), 409);
            assert_eq!(e.message().as_str(), "Email exists (cached)");
        }
        Ok(()) => panic!("second registration must conflict"),
    }

    // Login with the wrong secret: unauthorized.
    let wrong = AuthRequest { email: req.email.clone(), password: "p2secret".to_string() };
    let fetched = store.get(&wrong.email).map(|h| GetUserPassword { password: h.clone() });
    match login_attempt(&wrong, fetched.as_ref(), NOW, KEY) {
        Err(e) => {
            assert_eq!(e.status_code(), 401);
            assert_eq!(e.message().as_str(), "Invalid password");
        }
        Ok(_) => panic!("wrong secret must not log in"),
    }

    // Login with p1: succeeds with a token for u1.
    let fetched = store.get(&req.email).map(|h| GetUserPassword { password: h.clone() });
    let resp = login_attempt(&req, fetched.as_ref(), NOW, KEY).unwrap();
    assert_eq!(resp.email.as_str(), "u1@example.com");
    let claims = validate_token(&resp.token, NOW + 1, KEY).unwrap();
    assert_eq!(claims.sub.as_str(), "u1@example.com");
}

#[test]
fn register_complete_internal_failure_is_conflict_free() {
    let mut cache = ExistenceCache::new(100);
    match register_complete("u1@example.com", false, &mut cache, NOW, KEY) {
        Err(e) => {
            assert_eq!(e.status_code(), 409);
            assert_eq!(e.message().as_str(), "Email already exists");
        }
        Ok(_) => panic!("losing insert must be a conflict"),
    }
    assert!(!cache.probably_exists("u1@example.com"));
}

#[test]
fn app_error_status_codes() {
    assert_eq!(AppError::NotFound("x".to_string()).status_code(), 404);
    assert_eq!(AppError::Unauthorized("x".to_string()).status_code(), 401);
    assert_eq!(AppError::Conflict("x".to_string()).status_code(), 409);
    assert_eq!(AppError::InternalServerError("x".to_string()).status_code(), 500);
    assert_eq!(AppError::BadRequest("x".to_string()).status_code(), 400);
    assert_eq!(AppError::BadRequest("why".to_string()).message().as_str(), "why");
}

#[test]
fn password_length_bounds() {
    // 8 and 32 characters are accepted; 7 and 33 are not.
    let ok8 = AuthRequest { email: "u@example.com".to_string(), password: "a".repeat(8) };
    let ok32 = AuthRequest { email: "u@example.com".to_string(), password: "a".repeat(32) };
    let bad7 = AuthRequest { email: "u@example.com".to_string(), password: "a".repeat(7) };
    let bad33 = AuthRequest { email: "u@example.com".to_string(), password: "a".repeat(33) };
    assert!(matches!(login_attempt(&ok8, None, NOW, KEY), Err(AppError::NotFound(_))));
    assert!(matches!(login_attempt(&ok32, None, NOW, KEY), Err(AppError::NotFound(_))));
    assert!(matches!(login_attempt(&bad7, None, NOW, KEY), Err(AppError::BadRequest(_))));
    assert!(matches!(login_attempt(&bad33, None, NOW, KEY), Err(AppError::BadRequest(_))));
}

#[test]
fn email_shape_bounds() {
    let mut cache = ExistenceCache::new(10);
    let with = |email: &str| AuthRequest { email: email.to_string(), password: "p1secret".to_string() };
    assert!(register_precheck(&with("a@b.co"), &mut cache).is_ok());
    assert!(register_precheck(&with("first.last@sub.example.com"), &mut cache).is_ok());
    // no name, no domain, dot-less domain, dot at a domain edge,
    // a second @, whitespace
    assert!(register_precheck(&with("@example.com"), &mut cache).is_err());
    assert!(register_precheck(&with("user@"), &mut cache).is_err());
    assert!(register_precheck(&with("a@b"), &mut cache).is_err());
    assert!(register_precheck(&with("a@.co"), &mut cache).is_err());
    assert!(register_precheck(&with("a@co."), &mut cache).is_err());
    assert!(register_precheck(&with("a@@b.co"), &mut cache).is_err());
    assert!(register_precheck(&with("a b@c.de"), &mut cache).is_err());
    assert!(register_precheck(&with("a@c.de\u{00a0}"), &mut cache).is_err());
}
