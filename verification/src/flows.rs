//! The decision core of each endpoint: registration, login, the
//! conditional listing, deletion and logout.  Each function takes the
//! store's answers as plain values and returns what the response must
//! hold, so the whole decision is verified; the store calls and the
//! transport stay outside.

use vstd::prelude::*;
use vstd::string::StringSliceAdditionalSpecFns;
use crate::ApiError;
use crate::account::{Account, same_public_fields};
use crate::fingerprint::{compute_etag, spec_etag};
use crate::guard::{extract_bearer, opt_str_view, spec_bearer_token};
use crate::password::{bcrypt_verify, hash_password, password_matches};
use crate::registry::RevocationRegistry;
use crate::token::{jwt_payload_of, jwt_token_of, now_unix, SessionAuthority, TOKEN_LIFETIME_SECONDS};

verus! {

/// What a successful registration produces: the record for the store,
/// and the outward copy of it with the password blanked.
pub struct RegisterOutcome {
    /// Goes to the credential store.
    pub stored: Account,
    /// Goes back to the client; same public fields, password empty.
    pub response: Account,
}

/// Relies on uuid::Uuid::new_v4 and its hyphenated rendering: a fresh
/// random identifier, always 36 characters; nothing more can be said of
/// a random value.
#[verifier::external_body]
fn fresh_account_id() -> (r: String)
    ensures
        r@.len() == 36,
{
    uuid::Uuid::new_v4().to_string()
}

/// The registration decision.  The caller looks the email up in the
/// store and passes whether it is already taken; a taken email is
/// rejected outright, otherwise the password is hashed and a record
/// with a fresh id is built.  Only a hashing failure stands between a
/// free email and success, and it surfaces as the internal error.
pub fn register_account(
    email_taken: bool,
    username: &str,
    email: &str,
    password: &str,
) -> (r: Result<RegisterOutcome, ApiError>)
    ensures
        email_taken <==> r == Err::<RegisterOutcome, ApiError>(ApiError::EmailTaken),
        r matches Err(e) ==> e == ApiError::EmailTaken || e == ApiError::Internal,
        r matches Ok(o) ==> {
            &&& o.stored.username@ == username@
            &&& o.stored.email@ == email@
            &&& password_matches(password.spec_bytes(), o.stored.password@)
            &&& o.stored.id@.len() == 36
            &&& same_public_fields(o.stored, o.response)
            &&& o.response.password@ == Seq::<char>::empty()
        },
{
    if email_taken {
        return Err(ApiError::EmailTaken);
    }
    let digest = match hash_password(password) {
        Ok(d) => d,
        Err(e) => {
            return Err(e);
        },
    };
    let stored = Account {
        id: fresh_account_id(),
        username: username.to_owned(),
        email: email.to_owned(),
        password: digest,
    };
    let response = stored.sanitized();
    Ok(RegisterOutcome { stored, response })
}

/// What a successful login hands the client: the account's public
/// fields and a fresh bearer token.
pub struct LoginSuccess {
    /// The account id the token speaks for.
    pub id: String,
    /// The account's display name.
    pub username: String,
    /// The account's email.
    pub email: String,
    /// The fresh session token.
    pub token: String,
}

impl SessionAuthority {
    /// The login decision as of instant `now`.  The caller looks the
    /// account up by email and passes what it found.  An unknown email,
    /// a wrong password and a stored digest bcrypt cannot parse are all
    /// rejected with the same uniform error, so no response leaks which
    /// check failed; a matching password always earns a token for the
    /// account's id, expiring one lifetime after `now`.
    pub fn login_at(&self, found: Option<&Account>, password: &str, now: i64) -> (r: Result<
        LoginSuccess,
        ApiError,
    >)
        requires
            now + TOKEN_LIFETIME_SECONDS <= i64::MAX,
        ensures
            (match found {
                None => r == Err::<LoginSuccess, ApiError>(ApiError::Unauthenticated),
                Some(a) => if password_matches(password.spec_bytes(), a.password@) {
                    r matches Ok(ls)
                        && ls.id@ == a.id@
                        && ls.username@ == a.username@
                        && ls.email@ == a.email@
                        && ls.token@ == jwt_token_of(a.id@, now + TOKEN_LIFETIME_SECONDS, self.secret_view())
                        && jwt_payload_of(ls.token@, self.secret_view())
                            == Some((a.id@, now + TOKEN_LIFETIME_SECONDS))
                } else {
                    r == Err::<LoginSuccess, ApiError>(ApiError::Unauthenticated)
                },
            }),
    {
        let a = match found {
            Some(a) => a,
            None => {
                return Err(ApiError::Unauthenticated);
            },
        };
        match bcrypt_verify(password.as_bytes(), a.password.as_str()) {
            Some(true) => match self.issue_at(a.id.as_str(), now) {
                Ok(token) => Ok(
                    LoginSuccess {
                        id: a.id.clone(),
                        username: a.username.clone(),
                        email: a.email.clone(),
                        token,
                    },
                ),
                Err(e) => Err(e),
            },
            // A wrong password and a digest bcrypt cannot parse get one
            // rejection: verification never errs outward.
            Some(false) => Err(ApiError::Unauthenticated),
            None => Err(ApiError::Unauthenticated),
        }
    }

    /// The login decision as of the wall clock: the same decision, the
    /// expiry bound to whatever instant the clock gave.  The internal
    /// error comes only of a clock so late that the expiry would
    /// overflow; every rejection of a credential is the uniform one.
    pub fn login(&self, found: Option<&Account>, password: &str) -> (r: Result<
        LoginSuccess,
        ApiError,
    >)
        ensures
            found is None ==> r == Err::<LoginSuccess, ApiError>(ApiError::Unauthenticated),
            r matches Err(e) ==> e == ApiError::Unauthenticated || e == ApiError::Internal,
            r == Err::<LoginSuccess, ApiError>(ApiError::Unauthenticated) ==> (found is None
                || (found matches Some(a) && !password_matches(password.spec_bytes(), a.password@))),
            r matches Ok(ls) ==> (found matches Some(a) && {
                &&& password_matches(password.spec_bytes(), a.password@)
                &&& ls.id@ == a.id@
                &&& ls.username@ == a.username@
                &&& ls.email@ == a.email@
                &&& (exists|e: int| jwt_payload_of(ls.token@, self.secret_view()) == Some((a.id@, e)))
            }),
    {
        let a = match found {
            Some(a) => a,
            None => {
                return Err(ApiError::Unauthenticated);
            },
        };
        let now = now_unix();
        if now > i64::MAX - TOKEN_LIFETIME_SECONDS {
            return Err(ApiError::Internal);
        }
        let r = self.login_at(Some(a), password, now);
        proof {
            match r {
                Ok(ref ls) => {
                    assert(jwt_payload_of(ls.token@, self.secret_view())
                        == Some((a.id@, now + TOKEN_LIFETIME_SECONDS as int)));
                },
                Err(_) => {},
            }
        }
        r
    }
}

/// What the listing endpoint answers: nothing new, or the sanitized
/// snapshot with its validator.
#[derive(Debug)]
pub enum ListingReply {
    /// The client's validator still matches; no body goes out.
    NotModified,
    /// The full listing goes out.
    Listing {
        /// The snapshot, every password blanked.
        accounts: Vec<Account>,
        /// The fresh validator for this snapshot.
        etag: String,
    },
}

/// The caching directive sent with every full listing: private to the
/// client, to be revalidated before reuse.
pub fn cache_directive() -> (r: &'static str)
    ensures
        r@ == "private, must-revalidate"@,
{
    "private, must-revalidate"
}

/// The conditional-listing decision.  The validator is computed over
/// the snapshot in store order; if the client presented that very
/// validator the answer is empty, otherwise it is the snapshot with
/// every password blanked, under the fresh validator.
pub fn listing_reply(accounts: Vec<Account>, if_none_match: Option<&String>) -> (r: ListingReply)
    ensures
        (match r {
            ListingReply::NotModified => if_none_match matches Some(v) && v@ == spec_etag(
                accounts@,
            ),
            ListingReply::Listing { accounts: out, etag } => {
                &&& !(if_none_match matches Some(v) && v@ == spec_etag(accounts@))
                &&& etag@ == spec_etag(accounts@)
                &&& out@.len() == accounts@.len()
                &&& forall|i: int|
                    0 <= i < out@.len() ==> same_public_fields(accounts@[i], #[trigger] out@[i])
                        && out@[i].password@ == Seq::<char>::empty()
            },
        }),
{
    let etag = compute_etag(&accounts);
    if let Some(v) = if_none_match {
        if *v == etag {
            return ListingReply::NotModified;
        }
    }
    let n = accounts.len();
    let mut out: Vec<Account> = Vec::new();
    let mut i: usize = 0;
    while i < n
        invariant
            n == accounts@.len(),
            0 <= i <= n,
            out@.len() == i,
            forall|j: int|
                0 <= j < i ==> same_public_fields(accounts@[j], #[trigger] out@[j])
                    && out@[j].password@ == Seq::<char>::empty(),
        decreases n - i,
    {
        out.push(accounts[i].sanitized());
        i += 1;
    }
    ListingReply::Listing { accounts: out, etag }
}

/// How a deletion is answered.
#[derive(Clone, Copy, Debug, PartialEq, Eq, Structural)]
pub enum DeleteReply {
    /// The actor deleted their own account; the client should log out.
    SelfDeleted,
    /// Another account was deleted; nothing more to say.
    Deleted,
    /// No record with the target id existed.
    Missing,
}

/// The deletion decision.  The caller asks the store to delete the
/// target id and passes whether a record went away; an actor who
/// deleted their own account is told to log out.
pub fn delete_reply(actor: &String, target: &String, deleted: bool) -> (r: DeleteReply)
    ensures
        r == (if !deleted {
            DeleteReply::Missing
        } else if actor@ == target@ {
            DeleteReply::SelfDeleted
        } else {
            DeleteReply::Deleted
        }),
{
    if !deleted {
        DeleteReply::Missing
    } else if *actor == *target {
        DeleteReply::SelfDeleted
    } else {
        DeleteReply::Deleted
    }
}

/// The logout decision: whatever bearer token the request carried is
/// revoked; a request without one changes nothing.  Logout always
/// succeeds outward either way.
pub fn logout(header: Option<&str>, registry: &mut RevocationRegistry)
    ensures
        final(registry)@ == (match opt_str_view(header) {
            Some(h) => match spec_bearer_token(h) {
                Some(t) => old(registry)@.insert(t),
                None => old(registry)@,
            },
            None => old(registry)@,
        }),
{
    if let Some(h) = header {
        if let Some(token) = extract_bearer(h) {
            registry.revoke(&token);
        }
    }
}

} // verus!
