//! Roles and the central authorization policy.
//!
//! Every vault operation that consults a role goes through [`authorize`],
//! so the policy cannot be bypassed by a new code path.

use vstd::prelude::*;

verus! {

/// The clearance a caller presents. `Guest` is the least privileged role;
/// `Admin` may read and delete secrets.
#[derive(Debug, Clone, Copy, PartialEq, Eq, Structural)]
pub enum Role {
    Guest,
    Admin,
}

/// The role-gated operations of the secret vault.
#[derive(Debug, Clone, Copy, PartialEq, Eq, Structural)]
pub enum VaultOp {
    /// Listing the names of stored secrets, without decrypting any.
    ListSecrets,
    /// Decrypting and reading one secret.
    ReadSecret,
    /// Removing one secret.
    DeleteSecret,
}

/// The policy: any authenticated role may list names; reading or deleting
/// a secret requires `Admin`.
pub open spec fn authorized(role: Role, op: VaultOp) -> bool {
    match op {
        VaultOp::ListSecrets => true,
        VaultOp::ReadSecret => role == Role::Admin,
        VaultOp::DeleteSecret => role == Role::Admin,
    }
}

/// Runtime check of the single central policy.
pub fn authorize(role: Role, op: VaultOp) -> (r: bool)
    ensures
        r == authorized(role, op),
{
    match op {
        VaultOp::ListSecrets => true,
        VaultOp::ReadSecret => matches!(role, Role::Admin),
        VaultOp::DeleteSecret => matches!(role, Role::Admin),
    }
}

} // verus!
