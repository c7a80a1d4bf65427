//! One-way salted password hashing and constant-time verification.

use vstd::prelude::*;
use vstd::string::StringSliceAdditionalSpecFns;
use crate::ApiError;

verus! {

/// What `bcrypt::verify` answers for a password and a digest: `Some(b)`
/// where the digest parsed and the recomputed hash compared out as `b`,
/// `None` where the digest is malformed or the recomputation failed.
/// The answer is a function of the password bytes and the digest text
/// alone, since the digest carries its own salt and cost.
pub uninterp spec fn bcrypt_verdict(password: Seq<u8>, digest: Seq<char>) -> Option<bool>;

/// A digest matches a password exactly when bcrypt answers a definite yes.
pub open spec fn password_matches(password: Seq<u8>, digest: Seq<char>) -> bool {
    bcrypt_verdict(password, digest) == Some(true)
}

/// Relies on bcrypt::hash with the crate's default cost: the digest it
/// returns embeds the fresh salt and the cost, and bcrypt::verify
/// recomputes from exactly those, so a digest fresh from bcrypt::hash
/// verifies against the password it was made from.  `None` stands for
/// bcrypt's own error (the salt draws on operating-system randomness).
#[verifier::external_body]
fn bcrypt_hash(password: &[u8]) -> (r: Option<String>)
    ensures
        r matches Some(d) ==> bcrypt_verdict(password@, d@) == Some(true),
{
    bcrypt::hash(password, bcrypt::DEFAULT_COST).ok()
}

/// Relies on bcrypt::verify: parses the digest, recomputes with its
/// embedded salt and cost, and compares in constant time; it errs on a
/// malformed digest, which `None` stands for.
#[verifier::external_body]
pub(crate) fn bcrypt_verify(password: &[u8], digest: &str) -> (r: Option<bool>)
    ensures
        r == bcrypt_verdict(password@, digest@),
{
    bcrypt::verify(password, digest).ok()
}

/// One-way, salted hashing of a plaintext password.  Success cannot be
/// promised (the salt comes from operating-system randomness), but every
/// digest handed back verifies against the password it was made from;
/// a hashing failure is the internal error, never a validation failure.
pub fn hash_password(password: &str) -> (r: Result<String, ApiError>)
    ensures
        r matches Ok(d) ==> password_matches(password.spec_bytes(), d@),
        r matches Err(e) ==> e == ApiError::Internal,
{
    match bcrypt_hash(password.as_bytes()) {
        Some(d) => Ok(d),
        None => Err(ApiError::Internal),
    }
}

/// Constant-time password check.  A malformed digest never matches and
/// never errs outward: the answer is `true` exactly when bcrypt accepts
/// the password against the digest.
pub fn verify_password(password: &str, digest: &str) -> (r: bool)
    ensures
        r == password_matches(password.spec_bytes(), digest@),
{
    match bcrypt_verify(password.as_bytes(), digest) {
        Some(b) => b,
        None => false,
    }
}

} // verus!
