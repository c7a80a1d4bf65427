//! The revocation registry: the set of token strings that must be
//! treated as revoked regardless of any remaining validity window.
//!
//! The registry is an explicitly owned component, built once at process
//! start; whoever shares it across concurrently handled requests guards
//! every access with one mutual-exclusion lock, so that each check or
//! insert below runs as a single critical section.  It is process-local
//! only: a restart clears all revocations, a documented limitation.

use vstd::prelude::*;

verus! {

/// A set of revoked token strings, growing monotonically for the
/// lifetime of the process.  Its observable state is the set of token
/// texts it holds.
pub struct RevocationRegistry {
    tokens: Vec<String>,
}

impl View for RevocationRegistry {
    type V = Set<Seq<char>>;

    closed spec fn view(&self) -> Set<Seq<char>> {
        Set::new(
            |t: Seq<char>|
                exists|i: int| 0 <= i < self.tokens@.len() && self.tokens@[i]@ == t,
        )
    }
}

impl RevocationRegistry {
    /// A fresh registry revokes nothing.
    pub fn new() -> (r: RevocationRegistry)
        ensures
            r@ == Set::<Seq<char>>::empty(),
    {
        let r = RevocationRegistry { tokens: Vec::new() };
        proof {
            assert(r@ =~= Set::<Seq<char>>::empty());
        }
        r
    }

    /// Pure membership test: whether this exact token text has been
    /// revoked.
    pub fn is_revoked(&self, token: &String) -> (r: bool)
        ensures
            r == self@.contains(token@),
    {
        let n = self.tokens.len();
        let mut i: usize = 0;
        while i < n
            invariant
                n == self.tokens@.len(),
                0 <= i <= n,
                forall|j: int| 0 <= j < i ==> self.tokens@[j]@ != token@,
            decreases n - i,
        {
            if self.tokens[i] == *token {
                return true;
            }
            i += 1;
        }
        false
    }

    /// Idempotent insert: afterwards the registry holds exactly what it
    /// held before plus this token.  Revoking an already revoked token
    /// leaves the observable state unchanged.
    pub fn revoke(&mut self, token: &String)
        ensures
            final(self)@ == old(self)@.insert(token@),
    {
        if !self.is_revoked(token) {
            self.tokens.push(token.clone());
            proof {
                assert forall|t: Seq<char>| self@.contains(t)
                    <==> old(self)@.insert(token@).contains(t) by {
                    if old(self)@.insert(token@).contains(t) {
                        if t == token@ {
                            assert(self.tokens@[self.tokens@.len() - 1]@ == t);
                        } else {
                            let i = choose|i: int|
                                0 <= i < old(self).tokens@.len() && old(self).tokens@[i]@ == t;
                            assert(self.tokens@[i]@ == t);
                        }
                    }
                }
                assert(self@ =~= old(self)@.insert(token@));
            }
        } else {
            proof {
                assert(self@ =~= old(self)@.insert(token@));
            }
        }
    }
}

/// Revocation is idempotent: revoking the same token twice leaves the
/// registry in the same observable state as revoking it once.
pub proof fn lemma_revoke_idempotent(revoked: Set<Seq<char>>, token: Seq<char>)
    ensures
        revoked.insert(token).insert(token) == revoked.insert(token),
{
    assert(revoked.insert(token).insert(token) =~= revoked.insert(token));
}

/// A revoked token is revoked: insertion makes membership hold, whatever
/// else the registry holds.
pub proof fn lemma_revoked_member(revoked: Set<Seq<char>>, token: Seq<char>)
    ensures
        revoked.insert(token).contains(token),
{
}

} // verus!
