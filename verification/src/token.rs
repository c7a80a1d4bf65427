//! Issuance and validation of signed, time-bound bearer tokens.

use vstd::prelude::*;
use crate::ApiError;

verus! {

/// How long an issued token stays valid, in seconds.
pub const TOKEN_LIFETIME_SECONDS: i64 = 86400;

/// The decoded payload of an accepted token: who it speaks for and when
/// it stops being accepted.
#[derive(Clone, Debug)]
pub struct Claims {
    /// The account id the token was issued to.
    pub subject: String,
    /// Absolute expiry instant, seconds since the Unix epoch.
    pub expires_at: i64,
}

/// What `jsonwebtoken::encode` produces for a subject, an expiry and a
/// signing secret: a function of exactly those three.
pub uninterp spec fn jwt_token_of(subject: Seq<char>, expires_at: int, secret: Seq<char>) -> Seq<char>;

/// What `jsonwebtoken::decode` recovers from a token text under a
/// secret, expiry left aside: the signed-in subject and expiry where the
/// structure and signature check out, nothing otherwise.  A function of
/// the token text and the secret alone.
pub uninterp spec fn jwt_payload_of(token: Seq<char>, secret: Seq<char>) -> Option<(Seq<char>, int)>;

/// The whole verification verdict at a given instant: the payload where
/// the token decodes under the secret and has not yet expired.  Expiry
/// is a hard boundary with no grace window: a token is rejected exactly
/// when its expiry lies in the past.
pub open spec fn token_verdict(token: Seq<char>, secret: Seq<char>, now: int) -> Option<(Seq<char>, int)> {
    match jwt_payload_of(token, secret) {
        Some(payload) => if payload.1 >= now {
            Some(payload)
        } else {
            None
        },
        None => None,
    }
}

/// Relies on jsonwebtoken::encode with the default (HS256) header and a
/// key built from the secret's bytes: the token is a function of the
/// claims and the secret alone, and jsonwebtoken::decode under the same
/// secret recovers exactly these claims.  An HMAC signer accepts a key
/// of any length and serializing the two fixed claims cannot fail, so
/// the call always hands a token back.
#[verifier::external_body]
fn jwt_encode(subject: &str, expires_at: i64, secret: &str) -> (r: Option<String>)
    ensures
        r is Some,
        r matches Some(t) ==> t@ == jwt_token_of(subject@, expires_at as int, secret@),
        r matches Some(t) ==> jwt_payload_of(t@, secret@) == Some((subject@, expires_at as int)),
{
    let mut claims = serde_json::Map::new();
    claims.insert(String::from("sub"), serde_json::Value::from(subject));
    claims.insert(String::from("exp"), serde_json::Value::from(expires_at));
    let key = jsonwebtoken::EncodingKey::from_secret(secret.as_bytes());
    jsonwebtoken::encode(&jsonwebtoken::Header::default(), &serde_json::Value::Object(claims), &key).ok()
}

/// Relies on jsonwebtoken::decode with an HS256 key from the secret's
/// bytes and expiry, not-before and audience validation switched off,
/// so that the answer depends on the token text and the secret alone:
/// the claims where structure and signature check out, `None` on any
/// malformed or forged token.
#[verifier::external_body]
fn jwt_decode(token: &str, secret: &str) -> (r: Option<(String, i64)>)
    ensures
        (match r {
            Some(p) => Some((p.0@, p.1 as int)),
            None => None,
        }) == jwt_payload_of(token@, secret@),
{
    let mut validation = jsonwebtoken::Validation::new(jsonwebtoken::Algorithm::HS256);
    validation.validate_exp = false;
    validation.validate_aud = false;
    validation.required_spec_claims = std::collections::HashSet::new();
    let key = jsonwebtoken::DecodingKey::from_secret(secret.as_bytes());
    let data = jsonwebtoken::decode::<serde_json::Value>(token, &key, &validation).ok()?;
    let subject = data.claims.get("sub")?.as_str()?.to_string();
    let expires_at = data.claims.get("exp")?.as_i64()?;
    Some((subject, expires_at))
}

/// Relies on time::OffsetDateTime::now_utc: seconds since the Unix
/// epoch on the wall clock, about which nothing can be promised.
#[verifier::external_body]
pub(crate) fn now_unix() -> i64 {
    time::OffsetDateTime::now_utc().unix_timestamp()
}

/// Issues and validates the session tokens of one process, under one
/// signing secret held for the process lifetime.
pub struct SessionAuthority {
    secret: String,
}

impl SessionAuthority {
    /// The signing secret, visible to contracts only.
    pub closed spec fn secret_view(&self) -> Seq<char> {
        self.secret@
    }

    /// An authority is only ever built over a non-empty secret.
    pub open spec fn wf(&self) -> bool {
        self.secret_view().len() > 0
    }

    /// Construction demands a non-empty secret; an empty one is refused
    /// outright so the process can refuse to start.
    pub fn new(secret: String) -> (r: Option<SessionAuthority>)
        ensures
            (r matches Some(a)) <==> secret@.len() > 0,
            r matches Some(a) ==> a.secret_view() == secret@ && a.wf(),
    {
        if secret.as_str().is_empty() {
            None
        } else {
            Some(SessionAuthority { secret })
        }
    }

    /// Issues a token for `subject` as of instant `now`, expiring one
    /// lifetime later.  Symmetric signing cannot fail, so issuance is
    /// always owed.
    pub fn issue_at(&self, subject: &str, now: i64) -> (r: Result<String, ApiError>)
        requires
            now + TOKEN_LIFETIME_SECONDS <= i64::MAX,
        ensures
            r is Ok,
            r matches Ok(t) ==> t@ == jwt_token_of(subject@, now + TOKEN_LIFETIME_SECONDS, self.secret_view()),
            r matches Ok(t) ==> jwt_payload_of(t@, self.secret_view())
                == Some((subject@, now + TOKEN_LIFETIME_SECONDS)),
    {
        match jwt_encode(subject, now + TOKEN_LIFETIME_SECONDS, &self.secret) {
            Some(t) => Ok(t),
            None => Err(ApiError::Internal),
        }
    }

    /// Issues a token for `subject` as of the wall clock.  The expiry is
    /// whatever instant the clock gave plus one lifetime, so only the
    /// shape of the payload can be promised; the internal error comes
    /// only of a clock so late that the expiry would overflow.
    pub fn issue(&self, subject: &str) -> (r: Result<String, ApiError>)
        ensures
            r matches Ok(t) ==> (exists|e: int| jwt_payload_of(t@, self.secret_view())
                == Some((subject@, e))),
            r matches Err(e) ==> e == ApiError::Internal,
    {
        let now = now_unix();
        match now.checked_add(TOKEN_LIFETIME_SECONDS) {
            Some(_) => self.issue_at(subject, now),
            None => Err(ApiError::Internal),
        }
    }

    /// Validates a token as of instant `now`: the claims exactly where
    /// the token decodes under this authority's secret and its expiry
    /// does not lie in the past, a uniform rejection otherwise.  The
    /// caller cannot tell a forged token from an expired one apart.
    pub fn verify_at(&self, token: &str, now: i64) -> (r: Option<Claims>)
        ensures
            (match r {
                Some(c) => Some((c.subject@, c.expires_at as int)),
                None => None,
            }) == token_verdict(token@, self.secret_view(), now as int),
    {
        match jwt_decode(token, &self.secret) {
            Some(payload) => {
                if payload.1 >= now {
                    Some(Claims { subject: payload.0, expires_at: payload.1 })
                } else {
                    None
                }
            },
            None => None,
        }
    }
}

/// A freshly issued token is accepted at every instant up to its expiry,
/// and names exactly the subject it was issued to.
pub proof fn lemma_issued_token_verifies(token: Seq<char>, subject: Seq<char>, expires_at: int, secret: Seq<char>, now: int)
    requires
        jwt_payload_of(token, secret) == Some((subject, expires_at)),
        now <= expires_at,
    ensures
        token_verdict(token, secret, now) == Some((subject, expires_at)),
{
}

/// Expiry is a hard boundary: a decodable token is accepted at its very
/// expiry instant and at every instant before, and rejected at every
/// instant after.
pub proof fn lemma_expiry_boundary(token: Seq<char>, subject: Seq<char>, expires_at: int, secret: Seq<char>)
    requires
        jwt_payload_of(token, secret) == Some((subject, expires_at)),
    ensures
        token_verdict(token, secret, expires_at) == Some((subject, expires_at)),
        forall|now: int| now > expires_at ==> token_verdict(token, secret, now) is None,
        forall|now: int| now <= expires_at ==> token_verdict(token, secret, now) == Some((subject, expires_at)),
{
}

} // verus!
