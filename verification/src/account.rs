//! The account record as the core sees it.

use vstd::prelude::*;

verus! {

/// One account of the directory.  The password field holds the one-way
/// digest, never the plaintext; it is blanked before a record ever goes
/// outward.
#[derive(Clone, Debug)]
pub struct Account {
    /// Opaque unique identifier, generated server-side, immutable.
    pub id: String,
    /// Display string.
    pub username: String,
    /// Unique; the login key.
    pub email: String,
    /// One-way digest of the password, or empty in outward copies.
    pub password: String,
}

/// Two account records that agree on everything a client may see.
pub open spec fn same_public_fields(a: Account, b: Account) -> bool {
    a.id@ == b.id@ && a.username@ == b.username@ && a.email@ == b.email@
}

impl Account {
    /// An outward copy: the same public fields, the password blanked.
    pub fn sanitized(&self) -> (r: Account)
        ensures
            same_public_fields(*self, r),
            r.password@ == Seq::<char>::empty(),
    {
        Account {
            id: self.id.clone(),
            username: self.username.clone(),
            email: self.email.clone(),
            password: String::new(),
        }
    }
}

} // verus!
