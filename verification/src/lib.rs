//! Authentication and session-integrity core for a user-account directory.
//!
//! Accounts register with a password, authenticate to receive a bearer
//! token, and can invalidate that token on logout; a protected listing
//! endpoint enumerates accounts and supports conditional re-fetch via a
//! content fingerprint.  This crate holds the verified core: password
//! hashing and verification, bearer-token issuance with expiry, the
//! revocation registry consulted on every protected request, the session
//! guard, and the listing fingerprint.  Route wiring, the persistent
//! store and transport concerns live outside, around this library.

use vstd::prelude::*;

pub mod account;
pub mod fingerprint;
pub mod flows;
pub mod guard;
pub mod password;
pub mod registry;
pub mod token;

verus! {

/// The externally visible error taxonomy.  Every cause of a denied
/// request maps to exactly one of these; `Unauthenticated` deliberately
/// covers missing, malformed, expired, forged and revoked credentials as
/// well as bad login credentials, so that no response leaks which check
/// failed.
#[derive(Clone, Copy, Debug, PartialEq, Eq, Structural)]
pub enum ApiError {
    /// A registration attempt re-used an email address already on file.
    EmailTaken,
    /// The request carried no acceptable credential.
    Unauthenticated,
    /// The addressed resource does not exist.
    NotFound,
    /// A store or cryptographic collaborator failed; no detail leaks out.
    Internal,
}

/// The HTTP status that each error variant is reported with.
pub fn status_code(e: &ApiError) -> (r: u16)
    ensures
        r == (match e {
            ApiError::EmailTaken => 400u16,
            ApiError::Unauthenticated => 401u16,
            ApiError::NotFound => 404u16,
            ApiError::Internal => 500u16,
        }),
{
    match e {
        ApiError::EmailTaken => 400,
        ApiError::Unauthenticated => 401,
        ApiError::NotFound => 404,
        ApiError::Internal => 500,
    }
}

/// The uniform outward wording of each error.  Every unauthenticated
/// cause — missing header, bad signature, expired or revoked token, bad
/// login password — shares one message on purpose, and an internal
/// failure leaks no detail.
pub fn error_message(e: &ApiError) -> (r: &'static str)
    ensures
        r@ == (match e {
            ApiError::EmailTaken => "Email already registered"@,
            ApiError::Unauthenticated => "Invalid credentials"@,
            ApiError::NotFound => "Account not found"@,
            ApiError::Internal => "Internal server error"@,
        }),
{
    match e {
        ApiError::EmailTaken => "Email already registered",
        ApiError::Unauthenticated => "Invalid credentials",
        ApiError::NotFound => "Account not found",
        ApiError::Internal => "Internal server error",
    }
}

} // verus!
