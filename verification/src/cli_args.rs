//! The command-line surface of the store, as plain data.
//!
//! These types carry what a parsed invocation asks for. The binary that
//! parses real arguments keeps its own annotated copies and converts; the
//! library only ever sees these bare values.

use vstd::prelude::*;

verus! {

/// A whole invocation: one command.
pub struct Cli {
    pub command: Commands,
}

/// The top-level commands.
pub enum Commands {
    /// Commands related to secrets management.
    Secrets { cmd: SecretsCommands },
    /// Commands related to user management; the root key is required.
    Users { cmd: UserCommands },
    /// Commands related to the URL of the instance to talk to.
    Website { cmd: WebsiteCommands },
    /// Log in with a credential.
    Login(LoginArgs),
    /// Generate key material for an instance.
    Keygen(KeygenArgs),
    /// Unseal the instance.
    Unseal { chamber_key: String },
    /// Upload a packaged key file.
    Upload(UploadArgs),
    /// Open a shell session against the instance.
    Ssh,
}

/// Credentials for logging in.
pub struct LoginArgs {
    pub username: Option<String>,
    pub password: Option<String>,
}

/// Naming a user.
pub struct UserArgs {
    pub username: Option<String>,
}

/// Filtering a listing by tags.
pub struct ListArgs {
    pub tags: Option<String>,
}

/// Naming a secret.
pub struct KeyArgs {
    pub key: Option<String>,
}

/// Options for generating key material: an optional root key (random by
/// default) and an optional output location.
pub struct KeygenArgs {
    pub key: Option<String>,
    pub output: Option<String>,
}

/// A role change for a named user.
pub struct UpdateUserArgs {
    pub username: String,
    pub access_level: Option<i32>,
    pub roles: Option<Vec<String>>,
}

/// The user-management commands.
pub enum UserCommands {
    /// Create a new user.
    Create(LoginArgs),
    /// Update a user's role.
    Update(UpdateUserArgs),
    /// Delete a user.
    Delete(UserArgs),
}

/// The secrets-management commands.
pub enum SecretsCommands {
    /// Decrypt and view one secret.
    Get(KeyArgs),
    /// Create or replace one secret.
    Put { key: String, value: String },
    /// Update one secret's tags.
    Update { key: String, tags: Vec<String> },
    /// List the names of the stored secrets.
    List(ListArgs),
    /// List the decrypted secrets carrying one tag.
    ListByTag(ListByTagArgs),
    /// Delete one secret.
    Rm(KeyArgs),
}

/// Naming a tag.
pub struct ListByTagArgs {
    pub key: String,
}

/// The instance-URL commands.
pub enum WebsiteCommands {
    /// Show the current URL.
    Get,
    /// Set the current URL.
    Put(SetArgs),
}

/// A new value for the instance URL.
pub struct SetArgs {
    pub value: Option<String>,
}

/// Naming a key file to upload.
pub struct UploadArgs {
    pub key: Option<String>,
}

} // verus!
