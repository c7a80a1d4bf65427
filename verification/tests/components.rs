use auth_core::account::Account;
use auth_core::fingerprint::compute_etag;
use auth_core::guard::{extract_bearer, GuardError};
use auth_core::password::{hash_password, verify_password};
use auth_core::registry::RevocationRegistry;
use auth_core::token::{SessionAuthority, TOKEN_LIFETIME_SECONDS};
use auth_core::{error_message, status_code, ApiError};

fn authority(secret: &str) -> SessionAuthority {
    SessionAuthority::new(String::from(secret)).expect("non-empty secret")
}

fn account(id: &str, username: &str, email: &str, password: &str) -> Account {
    Account {
        id: String::from(id),
        username: String::from(username),
        email: String::from(email),
        password: String::from(password),
    }
}

#[test]
fn password_round_trip() {
    let digest = hash_password("pw123").expect("hashing succeeds");
    assert!(verify_password("pw123", &digest));
    assert!(!verify_password("pw124", &digest));
    assert!(!verify_password("", &digest));
}

#[test]
fn password_hash_is_salted() {
    let d1 = hash_password("pw123").expect("hashing succeeds");
    let d2 = hash_password("pw123").expect("hashing succeeds");
    assert_ne!(d1, d2);
    assert!(verify_password("pw123", &d1));
    assert!(verify_password("pw123", &d2));
}

#[test]
fn malformed_digest_never_matches() {
    assert!(!verify_password("pw123", "not-a-digest"));
    assert!(!verify_password("pw123", ""));
    assert!(!verify_password("pw123", "pw123"));
}

#[test]
fn empty_secret_refused() {
    assert!(SessionAuthority::new(String::new()).is_none());
    assert!(SessionAuthority::new(String::from("s")).is_some());
}

#[test]
fn issued_token_verifies_with_subject() {
    let auth = authority("top-secret");
    let now: i64 = 1_700_000_000;
    let token = auth.issue_at("account-7", now).expect("signing succeeds");
    let claims = auth.verify_at(&token, now).expect("fresh token verifies");
    assert_eq!(claims.subject, "account-7");
    assert_eq!(claims.expires_at, now + TOKEN_LIFETIME_SECONDS);
}

#[test]
fn expiry_is_a_hard_boundary() {
    let auth = authority("top-secret");
    let now: i64 = 1_700_000_000;
    let expires_at = now + TOKEN_LIFETIME_SECONDS;
    let token = auth.issue_at("account-7", now).expect("signing succeeds");
    assert!(auth.verify_at(&token, expires_at - 1).is_some());
    assert!(auth.verify_at(&token, expires_at).is_some());
    assert!(auth.verify_at(&token, expires_at + 1).is_none());
}

#[test]
fn forged_and_tampered_tokens_rejected() {
    let auth = authority("top-secret");
    let other = authority("another-secret");
    let now: i64 = 1_700_000_000;
    let token = auth.issue_at("account-7", now).expect("signing succeeds");
    assert!(other.verify_at(&token, now).is_none());
    let mut tampered = token.clone();
    tampered.push('x');
    assert!(auth.verify_at(&tampered, now).is_none());
    assert!(auth.verify_at("not.a.token", now).is_none());
}

#[test]
fn bearer_extraction() {
    assert_eq!(extract_bearer("Bearer abc.def.ghi"), Some(String::from("abc.def.ghi")));
    assert_eq!(extract_bearer("Bearer "), Some(String::new()));
    assert_eq!(extract_bearer("bearer abc"), None);
    assert_eq!(extract_bearer("Basic abc"), None);
    assert_eq!(extract_bearer("Bear"), None);
    assert_eq!(extract_bearer(""), None);
}

#[test]
fn revoked_token_short_circuits_the_guard() {
    let auth = authority("top-secret");
    let now: i64 = 1_700_000_000;
    let token = auth.issue_at("account-7", now).expect("signing succeeds");
    let header = format!("Bearer {}", token);
    let mut registry = RevocationRegistry::new();

    let claims = auth
        .authenticate_at(Some(&header), &registry, now)
        .expect("valid, unrevoked token passes");
    assert_eq!(claims.subject, "account-7");

    registry.revoke(&token);
    assert!(registry.is_revoked(&token));
    // Still far inside the signature-valid window, yet turned away.
    assert!(matches!(
        auth.authenticate_at(Some(&header), &registry, now),
        Err(GuardError::Revoked)
    ));
}

#[test]
fn revoke_is_idempotent() {
    let mut registry = RevocationRegistry::new();
    let token = String::from("some.token.text");
    registry.revoke(&token);
    assert!(registry.is_revoked(&token));
    registry.revoke(&token);
    assert!(registry.is_revoked(&token));
    assert!(!registry.is_revoked(&String::from("another.token")));
}

#[test]
fn guard_without_credential() {
    let auth = authority("top-secret");
    let registry = RevocationRegistry::new();
    let now: i64 = 1_700_000_000;
    assert!(matches!(
        auth.authenticate_at(None, &registry, now),
        Err(GuardError::NoCredential)
    ));
    assert!(matches!(
        auth.authenticate_at(Some("Token xyz"), &registry, now),
        Err(GuardError::NoCredential)
    ));
    assert!(matches!(
        auth.authenticate_at(Some("Bearer bad"), &registry, now),
        Err(GuardError::BadToken)
    ));
}

#[test]
fn wall_clock_issue_and_authenticate() {
    let auth = authority("top-secret");
    let registry = RevocationRegistry::new();
    let token = auth.issue("account-9").expect("signing succeeds");
    let header = format!("Bearer {}", token);
    let claims = auth.authenticate(Some(&header), &registry).expect("fresh token passes");
    assert_eq!(claims.subject, "account-9");
}

fn expected_etag(rows: &[(&str, &str, &str)]) -> String {
    let mut h: u64 = 0xcbf29ce484222325;
    let prime: u64 = 0x100000001b3;
    for (id, username, email) in rows {
        for field in [id, username, email] {
            for c in field.chars() {
                h = (h ^ (c as u64)).wrapping_mul(prime);
            }
            h = (h ^ 0x110000).wrapping_mul(prime);
        }
    }
    format!("\"{:x}\"", h)
}

#[test]
fn fingerprint_matches_fnv1a_by_hand() {
    let accounts = vec![
        account("id-1", "alice", "a@x.com", "digest-a"),
        account("id-2", "bob", "b@x.com", "digest-b"),
    ];
    let etag = compute_etag(&accounts);
    assert_eq!(etag, expected_etag(&[("id-1", "alice", "a@x.com"), ("id-2", "bob", "b@x.com")]));
}

#[test]
fn fingerprint_deterministic_and_content_sensitive() {
    let snapshot = vec![
        account("id-1", "alice", "a@x.com", "digest-a"),
        account("id-2", "bob", "b@x.com", "digest-b"),
    ];
    let again = vec![
        account("id-1", "alice", "a@x.com", "other-digest"),
        account("id-2", "bob", "b@x.com", ""),
    ];
    // Unchanged snapshot (passwords take no part): identical validator.
    assert_eq!(compute_etag(&snapshot), compute_etag(&again));

    let grown = vec![
        account("id-1", "alice", "a@x.com", "digest-a"),
        account("id-2", "bob", "b@x.com", "digest-b"),
        account("id-3", "carol", "c@x.com", "digest-c"),
    ];
    let shrunk = vec![account("id-1", "alice", "a@x.com", "digest-a")];
    let reordered = vec![
        account("id-2", "bob", "b@x.com", "digest-b"),
        account("id-1", "alice", "a@x.com", "digest-a"),
    ];
    assert_ne!(compute_etag(&snapshot), compute_etag(&grown));
    assert_ne!(compute_etag(&snapshot), compute_etag(&shrunk));
    assert_ne!(compute_etag(&snapshot), compute_etag(&reordered));
    assert_ne!(compute_etag(&snapshot), compute_etag(&Vec::new()));
}

#[test]
fn error_mapping() {
    assert_eq!(status_code(&ApiError::EmailTaken), 400);
    assert_eq!(status_code(&ApiError::Unauthenticated), 401);
    assert_eq!(status_code(&ApiError::NotFound), 404);
    assert_eq!(status_code(&ApiError::Internal), 500);
    assert_eq!(error_message(&ApiError::Unauthenticated), "Invalid credentials");
    assert_eq!(error_message(&ApiError::EmailTaken), "Email already registered");
    assert_eq!(error_message(&ApiError::NotFound), "Account not found");
    assert_eq!(error_message(&ApiError::Internal), "Internal server error");
}

#[test]
fn malformed_stored_digest_is_uniform_401() {
    let auth = authority("server-secret");
    let now: i64 = 1_700_000_000;
    let broken = account("id-1", "alice", "a@x.com", "not-a-digest");
    match auth.login_at(Some(&broken), "pw123", now) {
        Err(e) => {
            assert_eq!(e, ApiError::Unauthenticated);
            assert_eq!(status_code(&e), 401);
        }
        Ok(_) => panic!("a digest bcrypt cannot parse must not log in"),
    }
}
