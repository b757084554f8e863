//! The error kinds that the store's operations report.

use vstd::prelude::*;

verus! {

/// Every failure a store operation can report. Each kind is terminal for
/// the call that raised it: the store never retries or substitutes a
/// default.
#[derive(Debug, Clone, Copy, PartialEq, Eq, Structural)]
pub enum DatabaseError {
    /// The operation was attempted while the store is sealed.
    SealedError,
    /// The root key did not match on unseal or user creation, or the
    /// caller's role is insufficient for the operation.
    Forbidden,
    /// No secret is stored under the requested name.
    KeyNotFound,
    /// No user matches the requested name or credential.
    UserNotFound,
    /// A user with the requested name already exists.
    UserAlreadyExists,
    /// The stored ciphertext failed its integrity check: it was tampered
    /// with, or encrypted under a different key or nonce.
    DecryptionError,
    /// A session token's signature does not verify.
    InvalidToken,
    /// A session token's expiry time has passed.
    Expired,
}

} // verus!
