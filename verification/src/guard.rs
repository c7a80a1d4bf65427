//! The session guard: the single authorization decision every protected
//! handler runs, composing bearer extraction, the revocation registry
//! and token verification, short-circuiting on the first failure.

use vstd::prelude::*;
use crate::registry::RevocationRegistry;
use crate::token::{Claims, SessionAuthority, now_unix, token_verdict};

verus! {

/// Why the guard turned a request away.  The distinction exists for
/// server-side diagnostics only: every variant is reported outward as
/// the one uniform unauthenticated error.
#[derive(Clone, Copy, Debug, PartialEq, Eq, Structural)]
pub enum GuardError {
    /// No authorization header, or one without the bearer prefix.
    NoCredential,
    /// The presented token has been revoked; its signature and expiry
    /// were never consulted.
    Revoked,
    /// The presented token is malformed, forged or expired.
    BadToken,
}

/// The bearer prefix of an authorization header, character by character.
pub open spec fn bearer_prefix() -> Seq<char> {
    seq!['B', 'e', 'a', 'r', 'e', 'r', ' ']
}

/// The raw token carried by an authorization header value: what follows
/// the bearer prefix, if the header starts with it.
pub open spec fn spec_bearer_token(header: Seq<char>) -> Option<Seq<char>> {
    if header.len() >= 7 && header.subrange(0, 7) == bearer_prefix() {
        Some(header.subrange(7, header.len() as int))
    } else {
        None
    }
}

/// The guard's whole decision as a function of the request's
/// authorization header, the revoked set, the signing secret and the
/// clock: the checks run in order and the first failure wins, so a
/// revoked token is turned away before its signature or expiry is ever
/// looked at.
pub open spec fn spec_guard(
    header: Option<Seq<char>>,
    revoked: Set<Seq<char>>,
    secret: Seq<char>,
    now: int,
) -> Result<(Seq<char>, int), GuardError> {
    match header {
        None => Err(GuardError::NoCredential),
        Some(h) => match spec_bearer_token(h) {
            None => Err(GuardError::NoCredential),
            Some(t) => if revoked.contains(t) {
                Err(GuardError::Revoked)
            } else {
                match token_verdict(t, secret, now) {
                    Some(payload) => Ok(payload),
                    None => Err(GuardError::BadToken),
                }
            },
        },
    }
}

/// The view of an optional header value.
pub open spec fn opt_str_view(header: Option<&str>) -> Option<Seq<char>> {
    match header {
        Some(h) => Some(h@),
        None => None,
    }
}

/// Pulls the raw token out of an authorization header value: everything
/// after the bearer prefix, if the value starts with it.
pub fn extract_bearer(header: &str) -> (r: Option<String>)
    ensures
        (match r {
            Some(t) => Some(t@),
            None => None,
        }) == spec_bearer_token(header@),
{
    let n = header.unicode_len();
    if n < 7 {
        return None;
    }
    if header.get_char(0) == 'B' && header.get_char(1) == 'e' && header.get_char(2) == 'a'
        && header.get_char(3) == 'r' && header.get_char(4) == 'e' && header.get_char(5) == 'r'
        && header.get_char(6) == ' ' {
        proof {
            assert(header@.subrange(0, 7) =~= bearer_prefix());
        }
        let token = header.substring_char(7, n);
        Some(token.to_owned())
    } else {
        proof {
            assert(header@.subrange(0, 7) != bearer_prefix());
        }
        None
    }
}

impl SessionAuthority {
    /// The authorization decision as of instant `now`.  The claims come
    /// back exactly where a bearer credential is present, not revoked,
    /// and verifies as unexpired under this authority's secret; the
    /// error names the first check that failed.
    pub fn authenticate_at(
        &self,
        header: Option<&str>,
        registry: &RevocationRegistry,
        now: i64,
    ) -> (r: Result<Claims, GuardError>)
        ensures
            (match r {
                Ok(c) => Ok((c.subject@, c.expires_at as int)),
                Err(g) => Err(g),
            }) == spec_guard(opt_str_view(header), registry@, self.secret_view(), now as int),
    {
        let h = match header {
            Some(h) => h,
            None => {
                return Err(GuardError::NoCredential);
            },
        };
        let token = match extract_bearer(h) {
            Some(t) => t,
            None => {
                return Err(GuardError::NoCredential);
            },
        };
        if registry.is_revoked(&token) {
            return Err(GuardError::Revoked);
        }
        match self.verify_at(token.as_str(), now) {
            Some(claims) => Ok(claims),
            None => Err(GuardError::BadToken),
        }
    }

    /// The authorization decision as of the wall clock: the same
    /// decision function, at whatever instant the clock gave.
    pub fn authenticate(
        &self,
        header: Option<&str>,
        registry: &RevocationRegistry,
    ) -> (r: Result<Claims, GuardError>)
        ensures
            exists|now: int|
                (match r {
                    Ok(c) => Ok((c.subject@, c.expires_at as int)),
                    Err(g) => Err(g),
                }) == #[trigger] spec_guard(opt_str_view(header), registry@, self.secret_view(), now),
    {
        let now = now_unix();
        let r = self.authenticate_at(header, registry, now);
        proof {
            assert((match r {
                Ok(c) => Ok::<(Seq<char>, int), GuardError>((c.subject@, c.expires_at as int)),
                Err(g) => Err(g),
            }) == spec_guard(opt_str_view(header), registry@, self.secret_view(), now as int));
        }
        r
    }
}

/// Once a token is revoked the guard turns it away, whatever its
/// signature-validity window still holds: the registry is consulted
/// first and short-circuits the decision.
pub proof fn lemma_revoked_short_circuit(
    header: Seq<char>,
    token: Seq<char>,
    revoked: Set<Seq<char>>,
    secret: Seq<char>,
    now: int,
)
    requires
        spec_bearer_token(header) == Some(token),
    ensures
        spec_guard(Some(header), revoked.insert(token), secret, now) == Err::<(Seq<char>, int), GuardError>(GuardError::Revoked),
{
}

/// A request without a bearer credential is turned away before any
/// registry or signature check.
pub proof fn lemma_no_credential(revoked: Set<Seq<char>>, secret: Seq<char>, now: int)
    ensures
        spec_guard(None, revoked, secret, now) == Err::<(Seq<char>, int), GuardError>(GuardError::NoCredential),
{
}

} // verus!
