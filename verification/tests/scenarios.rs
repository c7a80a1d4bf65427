//! End-to-end stories against the decision core, with a plain vector
//! standing in for the credential store, as the handlers around the
//! library would drive it.

use auth_core::account::Account;
use auth_core::flows::{
    delete_reply, listing_reply, logout, register_account, DeleteReply, ListingReply,
};
use auth_core::guard::GuardError;
use auth_core::registry::RevocationRegistry;
use auth_core::token::SessionAuthority;
use auth_core::{status_code, ApiError};

fn email_taken(store: &[Account], email: &str) -> bool {
    store.iter().any(|a| a.email == email)
}

fn find_by_email<'a>(store: &'a [Account], email: &str) -> Option<&'a Account> {
    store.iter().find(|a| a.email == email)
}

#[test]
fn register_then_duplicate_email() {
    let mut store: Vec<Account> = Vec::new();

    // register("alice","a@x.com","pw123") -> 200, password field empty.
    let outcome = register_account(email_taken(&store, "a@x.com"), "alice", "a@x.com", "pw123")
        .expect("fresh email registers");
    assert_eq!(outcome.response.username, "alice");
    assert_eq!(outcome.response.email, "a@x.com");
    assert_eq!(outcome.response.password, "");
    assert_ne!(outcome.stored.password, "pw123");
    assert_eq!(outcome.stored.id.len(), 36);
    assert_eq!(outcome.response.id, outcome.stored.id);
    store.push(outcome.stored);

    // A different email registers too, under a fresh, distinct id.
    let other = register_account(email_taken(&store, "b@x.com"), "bob", "b@x.com", "pw456")
        .expect("fresh email registers");
    assert_ne!(other.stored.id, store[0].id);

    // Register the same email again -> 400.
    let again = register_account(email_taken(&store, "a@x.com"), "alice2", "a@x.com", "pw456");
    match again {
        Err(e) => {
            assert_eq!(e, ApiError::EmailTaken);
            assert_eq!(status_code(&e), 400);
        }
        Ok(_) => panic!("duplicate email must be rejected"),
    }
}

#[test]
fn login_listing_logout_story() {
    let auth = SessionAuthority::new(String::from("server-secret")).expect("non-empty secret");
    let mut registry = RevocationRegistry::new();
    let now: i64 = 1_700_000_000;
    let mut store: Vec<Account> = Vec::new();

    let outcome = register_account(email_taken(&store, "a@x.com"), "alice", "a@x.com", "pw123")
        .expect("fresh email registers");
    store.push(outcome.stored);

    // login("a@x.com","pw123") -> 200 with token T.
    let login = auth
        .login_at(find_by_email(&store, "a@x.com"), "pw123", now)
        .expect("right password logs in");
    assert_eq!(login.username, "alice");
    assert_eq!(login.email, "a@x.com");
    let token = login.token;

    // A wrong password and an unknown email are both 401, same wording.
    let wrong = auth.login_at(find_by_email(&store, "a@x.com"), "pw124", now);
    match wrong {
        Err(e) => assert_eq!(status_code(&e), 401),
        Ok(_) => panic!("wrong password must be rejected"),
    }
    let unknown = auth.login_at(find_by_email(&store, "b@x.com"), "pw123", now);
    match unknown {
        Err(e) => assert_eq!(status_code(&e), 401),
        Ok(_) => panic!("unknown email must be rejected"),
    }

    // GET /api/accounts without header -> 401.
    assert!(matches!(
        auth.authenticate_at(None, &registry, now),
        Err(GuardError::NoCredential)
    ));

    // GET with "Authorization: Bearer T" -> 200 with list and ETag E1.
    let header = format!("Bearer {}", token);
    let claims = auth
        .authenticate_at(Some(&header), &registry, now)
        .expect("fresh token authenticates");
    assert_eq!(claims.subject, store[0].id);

    let etag1 = match listing_reply(store.clone(), None) {
        ListingReply::Listing { accounts, etag } => {
            assert_eq!(accounts.len(), 1);
            assert_eq!(accounts[0].username, "alice");
            assert_eq!(accounts[0].password, "");
            etag
        }
        ListingReply::NotModified => panic!("no validator was presented"),
    };

    // Repeat GET with "If-None-Match: E1" -> 304 with empty body.
    assert!(matches!(
        listing_reply(store.clone(), Some(&etag1)),
        ListingReply::NotModified
    ));

    // A stale validator still gets the full listing.
    let stale = String::from("\"0\"");
    assert!(matches!(
        listing_reply(store.clone(), Some(&stale)),
        ListingReply::Listing { .. }
    ));

    // logout with token T -> 200; subsequent GET with "Bearer T" -> 401.
    logout(Some(&header), &mut registry);
    assert!(matches!(
        auth.authenticate_at(Some(&header), &registry, now),
        Err(GuardError::Revoked)
    ));

    // Logout without a header changes nothing and still succeeds.
    let before = registry.is_revoked(&token);
    logout(None, &mut registry);
    assert_eq!(registry.is_revoked(&token), before);
}

#[test]
fn delete_own_and_missing_account() {
    let auth = SessionAuthority::new(String::from("server-secret")).expect("non-empty secret");
    let registry = RevocationRegistry::new();
    let now: i64 = 1_700_000_000;
    let mut store: Vec<Account> = Vec::new();

    let outcome = register_account(email_taken(&store, "a@x.com"), "alice", "a@x.com", "pw123")
        .expect("fresh email registers");
    let own_id = outcome.stored.id.clone();
    store.push(outcome.stored);

    let token = auth.issue_at(&own_id, now).expect("signing succeeds");
    let header = format!("Bearer {}", token);
    let claims = auth
        .authenticate_at(Some(&header), &registry, now)
        .expect("fresh token authenticates");

    // DELETE /api/accounts/{own_id} as that same id -> should_logout.
    let had_it = store.iter().any(|a| a.id == own_id);
    store.retain(|a| a.id != own_id);
    assert_eq!(delete_reply(&claims.subject, &own_id, had_it), DeleteReply::SelfDeleted);

    // DELETE of a different, nonexistent id -> 404.
    let other = String::from("no-such-id");
    let had_other = store.iter().any(|a| a.id == other);
    assert_eq!(delete_reply(&claims.subject, &other, had_other), DeleteReply::Missing);

    // Deleting someone else's existing account is a plain deletion.
    let actor = String::from("someone-else");
    assert_eq!(delete_reply(&actor, &own_id, true), DeleteReply::Deleted);
}
