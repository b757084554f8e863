//! The seal gate: the lifecycle flag and the root-key comparison.
//!
//! A provisioned store starts sealed. The single transition to unsealed
//! is a successful [`SealGate::attempt_unseal`] with the root key; no
//! transition back to sealed is defined. An unprovisioned gate is
//! unrepresentable: every value of [`SealGate`] holds a root key.

use vstd::prelude::*;

verus! {

use crate::crypto::str_eq;
use crate::errors::DatabaseError;

/// Holds the seal flag and the root-key secret, and nothing else. Every
/// vault operation consults [`SealGate::is_sealed`] before touching any
/// other state.
pub struct SealGate {
    root_key: String,
    sealed: bool,
}

impl SealGate {
    /// The root-key secret, as a sequence of characters.
    pub closed spec fn root(self) -> Seq<char> {
        self.root_key@
    }

    /// Whether the store is sealed.
    pub closed spec fn sealed(self) -> bool {
        self.sealed
    }

    /// Provision with the given root key; the initial state is
    /// sealed.
    pub fn with_root_key(root_key: String) -> (r: SealGate)
        ensures
            r.root() == root_key@,
            r.sealed(),
    {
        SealGate { root_key, sealed: true }
    }

    /// Pure read of the seal flag.
    pub fn is_sealed(&self) -> (r: bool)
        ensures
            r == self.sealed(),
    {
        self.sealed
    }

    /// The root key, for the one-time display at provisioning.
    pub fn root_key(&self) -> (r: &String)
        ensures
            r@ == self.root(),
    {
        &self.root_key
    }

    /// Compare the candidate against the root key: on a match the
    /// store unseals; on a mismatch the call fails with `Forbidden` and
    /// nothing changes.
    pub fn attempt_unseal(&mut self, candidate: &String) -> (r: Result<(), DatabaseError>)
        ensures
            candidate@ == old(self).root() ==> r is Ok && !final(self).sealed(),
            candidate@ != old(self).root() ==> r == Err::<(), DatabaseError>(
                DatabaseError::Forbidden,
            ) && *final(self) == *old(self),
            final(self).root() == old(self).root(),
    {
        if str_eq(candidate, &self.root_key) {
            self.sealed = false;
            Ok(())
        } else {
            Err(DatabaseError::Forbidden)
        }
    }
}

} // verus!
