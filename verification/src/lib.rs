//! A sealable, encrypted in-memory secret store.
//!
//! The store keeps key/value secrets at rest behind authenticated
//! encryption, gates every operation behind a seal/unseal lifecycle and a
//! role check, and issues signed bearer sessions to authenticated users.

pub mod access;
pub mod cli_args;
pub mod crypto;
pub mod directory;
pub mod errors;
pub mod kv;
pub mod laws;
pub mod seal;
pub mod session;
pub mod vault;
