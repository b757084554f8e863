//! The in-memory store: the seal gate, the secret vault, the user
//! directory and the session issuer behind one interface.
//!
//! Control flow follows the design: every request passes the seal gate
//! first (the only exceptions being unseal itself and root-key-gated
//! user creation), then the central role policy, and only then the
//! component that owns the state.

use vstd::prelude::*;

verus! {

use crate::access::{authorize, authorized, Role, VaultOp};
use crate::crypto::{fresh_credential, fresh_key, gcm_cipher, str_eq, CREDENTIAL_LEN, GCM_P_MAX, NONCE_LEN};
use crate::directory::{find_cred, find_user, name_len_ok, User, UserDirectory, UserV};
use crate::errors::DatabaseError;
use crate::seal::SealGate;
use crate::session::{token_signed, SessionIssuer, SessionToken};
use crate::vault::{find_sec, reads_back, stores_value, CipherEntry, SecretV, SecretVault};
use vstd::utf8::encode_utf8;

/// The whole store: each component exclusively owns its state, and every
/// cross-component step goes through the operations below.
pub struct InMemoryDatabase {
    gate: SealGate,
    vault: SecretVault,
    directory: UserDirectory,
    sessions: SessionIssuer,
}

impl InMemoryDatabase {
    /// Whether the store is sealed.
    pub closed spec fn sealed(self) -> bool {
        self.gate.sealed()
    }

    /// The root key.
    pub closed spec fn root(self) -> Seq<char> {
        self.gate.root()
    }

    /// The vault's encryption key.
    pub closed spec fn enc_key(self) -> Seq<u8> {
        self.vault.enc_key()
    }

    /// The session signing secret.
    pub closed spec fn sig_key(self) -> Seq<u8> {
        self.sessions.sig_key()
    }

    /// The secrets at rest.
    pub closed spec fn secrets(self) -> Seq<SecretV> {
        self.vault.entries()
    }

    /// The stored users.
    pub closed spec fn users(self) -> Seq<UserV> {
        self.directory.members()
    }

    /// Internal invariant of every component.
    pub closed spec fn wf(self) -> bool {
        &&& self.vault.wf()
        &&& self.directory.wf()
        &&& self.sessions.wf()
    }

    /// Provision a store around the given root key: fresh encryption and
    /// signing keys, no secrets, no users, sealed.
    pub fn with_root_key(root_key: String) -> (r: InMemoryDatabase)
        ensures
            r.wf(),
            r.sealed(),
            r.root() == root_key@,
            r.secrets().len() == 0,
            r.users().len() == 0,
    {
        InMemoryDatabase {
            gate: SealGate::with_root_key(root_key),
            vault: SecretVault::with_key(fresh_key()),
            directory: UserDirectory::new(),
            sessions: SessionIssuer::with_key(fresh_key()),
        }
    }

    /// Provision a store with a freshly generated root key. The key is
    /// shown once through [`InMemoryDatabase::get_root_key`].
    pub fn new() -> (r: InMemoryDatabase)
        ensures
            r.wf(),
            r.sealed(),
            r.root().len() == CREDENTIAL_LEN,
            r.secrets().len() == 0,
            r.users().len() == 0,
    {
        Self::with_root_key(fresh_credential())
    }

    /// The root key, for the one-time display at provisioning.
    pub fn get_root_key(&self) -> (r: String)
        ensures
            r@ == self.root(),
    {
        self.gate.root_key().clone()
    }

    /// Pure read of the seal flag.
    pub fn is_locked(&self) -> (r: bool)
        ensures
            r == self.sealed(),
    {
        self.gate.is_sealed()
    }

    /// Attempt to unseal with `key`: succeeds exactly when it is the
    /// root key; on a mismatch the call fails with `Forbidden` and the
    /// whole store is unchanged.
    pub fn unlock(&mut self, key: String) -> (r: Result<bool, DatabaseError>)
        requires
            old(self).wf(),
        ensures
            final(self).wf(),
            key@ == old(self).root() ==> r == Ok::<bool, DatabaseError>(true)
                && !final(self).sealed(),
            key@ != old(self).root() ==> r == Err::<bool, DatabaseError>(DatabaseError::Forbidden)
                && final(self).sealed() == old(self).sealed(),
            final(self).root() == old(self).root(),
            final(self).enc_key() == old(self).enc_key(),
            final(self).sig_key() == old(self).sig_key(),
            final(self).secrets() == old(self).secrets(),
            final(self).users() == old(self).users(),
    {
        match self.gate.attempt_unseal(&key) {
            Ok(()) => Ok(true),
            Err(e) => Err(e),
        }
    }

    /// Encrypt `value` under a fresh nonce and store it under `key`,
    /// replacing any prior value (upsert). Fails with `SealedError`,
    /// changing nothing, while the store is sealed.
    pub fn create_secret(&mut self, key: String, value: String) -> (r: Result<(), DatabaseError>)
        requires
            old(self).wf(),
            encode_utf8(value@).len() < GCM_P_MAX,
        ensures
            final(self).wf(),
            old(self).sealed() ==> r == Err::<(), DatabaseError>(DatabaseError::SealedError)
                && *final(self) == *old(self),
            !old(self).sealed() ==> r is Ok && stores_value(
                final(self).enc_key(),
                final(self).secrets(),
                key@,
                value@,
            ) && (forall|other: Seq<char>|
                other != key@ ==> #[trigger] find_sec(final(self).secrets(), other) == find_sec(
                    old(self).secrets(),
                    other,
                )),
            final(self).sealed() == old(self).sealed(),
            final(self).root() == old(self).root(),
            final(self).enc_key() == old(self).enc_key(),
            final(self).sig_key() == old(self).sig_key(),
            final(self).users() == old(self).users(),
    {
        if self.gate.is_sealed() {
            return Err(DatabaseError::SealedError);
        }
        self.vault.insert_secret(key, value);
        Ok(())
    }

    /// Store raw `(nonce, ciphertext)` bytes under `key`: the restore
    /// path for externally persisted ciphertext. Sealed-gated like
    /// `create_secret`.
    pub fn restore_secret(&mut self, key: String, nonce: Vec<u8>, ciphertext: Vec<u8>) -> (r:
        Result<(), DatabaseError>)
        requires
            old(self).wf(),
            nonce@.len() == NONCE_LEN,
        ensures
            final(self).wf(),
            old(self).sealed() ==> r == Err::<(), DatabaseError>(DatabaseError::SealedError)
                && *final(self) == *old(self),
            !old(self).sealed() ==> r is Ok && find_sec(final(self).secrets(), key@) == Some(
                CipherEntry { nonce: nonce@, ct: ciphertext@ },
            ) && (forall|other: Seq<char>|
                other != key@ ==> #[trigger] find_sec(final(self).secrets(), other) == find_sec(
                    old(self).secrets(),
                    other,
                )),
            final(self).sealed() == old(self).sealed(),
            final(self).root() == old(self).root(),
            final(self).enc_key() == old(self).enc_key(),
            final(self).sig_key() == old(self).sig_key(),
            final(self).users() == old(self).users(),
    {
        if self.gate.is_sealed() {
            return Err(DatabaseError::SealedError);
        }
        self.vault.insert_raw(key, nonce, ciphertext);
        Ok(())
    }

    /// The names of all stored secrets; nothing is decrypted. Any
    /// authenticated role may list. Sealed-gated.
    pub fn view_all_secrets(&self, user_roles: Role) -> (r: Result<Vec<String>, DatabaseError>)
        requires
            self.wf(),
        ensures
            self.sealed() ==> r == Err::<Vec<String>, DatabaseError>(DatabaseError::SealedError),
            !self.sealed() && !authorized(user_roles, VaultOp::ListSecrets) ==> r == Err::<
                Vec<String>,
                DatabaseError,
            >(DatabaseError::Forbidden),
            !self.sealed() && authorized(user_roles, VaultOp::ListSecrets) ==> (r matches Ok(names)
                && names@.len() == self.secrets().len() && (forall|i: int|
                0 <= i < names@.len() ==> (#[trigger] names@[i])@ == self.secrets()[i].name)),
    {
        if self.gate.is_sealed() {
            return Err(DatabaseError::SealedError);
        }
        if !authorize(user_roles, VaultOp::ListSecrets) {
            return Err(DatabaseError::Forbidden);
        }
        Ok(self.vault.names())
    }

    /// What a contract-conforming `view_secret` may return on `db` for
    /// `role` and `name`: the seal gate and the role policy come first;
    /// then the result is exactly the stored value whenever the entry is
    /// an authentic encryption, `KeyNotFound` exactly when the name is
    /// absent, and `DecryptionError` otherwise.
    pub open spec fn view_outcome(
        db: InMemoryDatabase,
        role: Role,
        name: Seq<char>,
        r: Result<Seq<char>, DatabaseError>,
    ) -> bool {
        &&& db.sealed() ==> r == Err::<Seq<char>, DatabaseError>(DatabaseError::SealedError)
        &&& !db.sealed() && !authorized(role, VaultOp::ReadSecret) ==> r == Err::<
            Seq<char>,
            DatabaseError,
        >(DatabaseError::Forbidden)
        &&& !db.sealed() && authorized(role, VaultOp::ReadSecret) ==> {
            &&& (r matches Ok(p) ==> reads_back(db.enc_key(), db.secrets(), name, p))
            &&& (forall|p: Seq<char>|
                stores_value(db.enc_key(), db.secrets(), name, p) ==> r == Ok::<
                    Seq<char>,
                    DatabaseError,
                >(p))
            &&& (r == Err::<Seq<char>, DatabaseError>(DatabaseError::KeyNotFound) <==> find_sec(
                db.secrets(),
                name,
            ) is None)
            &&& (r matches Err(e) ==> e == DatabaseError::KeyNotFound || e
                == DatabaseError::DecryptionError)
        }
    }

    /// Decrypt and return the secret stored under `key`, enforcing the
    /// seal gate and the read policy first.
    pub fn view_secret(&self, user_roles: Role, key: String) -> (r: Result<String, DatabaseError>)
        requires
            self.wf(),
        ensures
            Self::view_outcome(
                *self,
                user_roles,
                key@,
                match r {
                    Ok(p) => Ok(p@),
                    Err(e) => Err(e),
                },
            ),
    {
        if self.gate.is_sealed() {
            return Err(DatabaseError::SealedError);
        }
        if !authorize(user_roles, VaultOp::ReadSecret) {
            return Err(DatabaseError::Forbidden);
        }
        self.vault.read_secret(&key)
    }

    /// Remove the secret stored under `key`, enforcing the seal gate and
    /// the delete policy first. Fails with `KeyNotFound` when absent.
    pub fn delete_secret(&mut self, user_roles: Role, key: String) -> (r: Result<
        (),
        DatabaseError,
    >)
        requires
            old(self).wf(),
        ensures
            final(self).wf(),
            old(self).sealed() ==> r == Err::<(), DatabaseError>(DatabaseError::SealedError)
                && *final(self) == *old(self),
            !old(self).sealed() && !authorized(user_roles, VaultOp::DeleteSecret) ==> r == Err::<
                (),
                DatabaseError,
            >(DatabaseError::Forbidden) && *final(self) == *old(self),
            !old(self).sealed() && authorized(user_roles, VaultOp::DeleteSecret) ==> {
                &&& (r is Ok <==> find_sec(old(self).secrets(), key@) is Some)
                &&& (r matches Err(e) ==> e == DatabaseError::KeyNotFound && *final(self) == *old(self))
                &&& (r is Ok ==> find_sec(final(self).secrets(), key@) is None)
                &&& (forall|other: Seq<char>|
                    other != key@ ==> #[trigger] find_sec(final(self).secrets(), other) == find_sec(
                        old(self).secrets(),
                        other,
                    ))
            },
            final(self).sealed() == old(self).sealed(),
            final(self).root() == old(self).root(),
            final(self).enc_key() == old(self).enc_key(),
            final(self).sig_key() == old(self).sig_key(),
            final(self).users() == old(self).users(),
    {
        if self.gate.is_sealed() {
            return Err(DatabaseError::SealedError);
        }
        if !authorize(user_roles, VaultOp::DeleteSecret) {
            return Err(DatabaseError::Forbidden);
        }
        self.vault.remove_secret(&key)
    }

    /// The stored `(nonce, ciphertext)` bytes under `key`, if any: the
    /// persistence and inspection path; nothing is decrypted.
    pub fn stored_entry(&self, key: &String) -> (r: Option<(Vec<u8>, Vec<u8>)>)
        ensures
            r matches Some(t) ==> find_sec(self.secrets(), key@) == Some(
                CipherEntry { nonce: t.0@, ct: t.1@ },
            ),
            r is None <==> find_sec(self.secrets(), key@) is None,
    {
        self.vault.stored_entry(key)
    }

    /// Create a user with the requested role. Gated by the root key, not
    /// the seal: user creation is how the first operator gets in. Fails
    /// with `Forbidden` on a wrong root key and `UserAlreadyExists` on a
    /// taken name, changing nothing in either case; otherwise returns the
    /// fresh credential exactly once.
    pub fn create_user(&mut self, root_key: &String, name: String, requested_role: Role) -> (r:
        Result<String, DatabaseError>)
        requires
            old(self).wf(),
            name_len_ok(name@),
        ensures
            final(self).wf(),
            root_key@ != old(self).root() ==> r == Err::<String, DatabaseError>(
                DatabaseError::Forbidden,
            ) && *final(self) == *old(self),
            root_key@ == old(self).root() && find_user(old(self).users(), name@) is Some ==> r
                == Err::<String, DatabaseError>(DatabaseError::UserAlreadyExists) && *final(self)
                == *old(self),
            root_key@ == old(self).root() && find_user(old(self).users(), name@) is None ==> (
            r matches Ok(c) && c@.len() == CREDENTIAL_LEN && final(self).users() == old(self).users().push(UserV { username: name@, password: c@, role: requested_role })),
            final(self).sealed() == old(self).sealed(),
            final(self).root() == old(self).root(),
            final(self).enc_key() == old(self).enc_key(),
            final(self).sig_key() == old(self).sig_key(),
            final(self).secrets() == old(self).secrets(),
    {
        let root_matches = str_eq(root_key, self.gate.root_key());
        if !root_matches {
            return Err(DatabaseError::Forbidden);
        }
        self.directory.create(name, requested_role)
    }

    /// Every stored user, in storage order. Sealed-gated.
    pub fn view_users(&self) -> (r: Result<Vec<User>, DatabaseError>)
        requires
            self.wf(),
        ensures
            self.sealed() ==> r == Err::<Vec<User>, DatabaseError>(DatabaseError::SealedError),
            !self.sealed() ==> (r matches Ok(us) && us@.len() == self.users().len() && (forall|
                i: int,
            |
                0 <= i < us@.len() ==> (#[trigger] us@[i])@ == self.users()[i])),
    {
        if self.gate.is_sealed() {
            return Err(DatabaseError::SealedError);
        }
        Ok(self.directory.all_users())
    }

    /// Resolve a credential to its user, uniformly failing with
    /// `UserNotFound`. Sealed-gated.
    pub fn get_user_from_password(&self, password: String) -> (r: Result<User, DatabaseError>)
        requires
            self.wf(),
        ensures
            self.sealed() ==> r == Err::<User, DatabaseError>(DatabaseError::SealedError),
            !self.sealed() ==> {
                &&& (r matches Ok(u) ==> find_cred(self.users(), password@) == Some(u@))
                &&& (r matches Err(e) ==> e == DatabaseError::UserNotFound && find_cred(
                    self.users(),
                    password@,
                ) is None)
            },
    {
        if self.gate.is_sealed() {
            return Err(DatabaseError::SealedError);
        }
        self.directory.find_by_credential(&password)
    }

    /// Look a user up by name. Sealed-gated.
    pub fn view_user_by_name(&self, id: String) -> (r: Result<User, DatabaseError>)
        requires
            self.wf(),
        ensures
            self.sealed() ==> r == Err::<User, DatabaseError>(DatabaseError::SealedError),
            !self.sealed() ==> {
                &&& (r matches Ok(u) ==> find_user(self.users(), id@) == Some(u@))
                &&& (r matches Err(e) ==> e == DatabaseError::UserNotFound && find_user(
                    self.users(),
                    id@,
                ) is None)
            },
    {
        if self.gate.is_sealed() {
            return Err(DatabaseError::SealedError);
        }
        self.directory.find_by_name(&id)
    }

    /// Give the named user a new role, keeping name and credential.
    /// Sealed-gated.
    pub fn update_role(&mut self, name: &String, role: Role) -> (r: Result<(), DatabaseError>)
        requires
            old(self).wf(),
        ensures
            final(self).wf(),
            old(self).sealed() ==> r == Err::<(), DatabaseError>(DatabaseError::SealedError)
                && *final(self) == *old(self),
            !old(self).sealed() ==> {
                &&& (r is Ok <==> find_user(old(self).users(), name@) is Some)
                &&& (r matches Err(e) ==> e == DatabaseError::UserNotFound && *final(self) == *old(self))
                &&& (r is Ok ==> (find_user(old(self).users(), name@) matches Some(u) && find_user(
                    final(self).users(),
                    name@,
                ) == Some(UserV { username: name@, password: u.password, role })))
                &&& (forall|other: Seq<char>|
                    other != name@ ==> #[trigger] find_user(final(self).users(), other)
                        == find_user(old(self).users(), other))
            },
            final(self).sealed() == old(self).sealed(),
            final(self).root() == old(self).root(),
            final(self).enc_key() == old(self).enc_key(),
            final(self).sig_key() == old(self).sig_key(),
            final(self).secrets() == old(self).secrets(),
    {
        if self.gate.is_sealed() {
            return Err(DatabaseError::SealedError);
        }
        self.directory.update_role(name, role)
    }

    /// Remove the named user. Sealed-gated; fails with `UserNotFound`
    /// when absent.
    pub fn delete_user(&mut self, name: String) -> (r: Result<(), DatabaseError>)
        requires
            old(self).wf(),
        ensures
            final(self).wf(),
            old(self).sealed() ==> r == Err::<(), DatabaseError>(DatabaseError::SealedError)
                && *final(self) == *old(self),
            !old(self).sealed() ==> {
                &&& (r is Ok <==> find_user(old(self).users(), name@) is Some)
                &&& (r matches Err(e) ==> e == DatabaseError::UserNotFound && *final(self) == *old(self))
                &&& (r is Ok ==> find_user(final(self).users(), name@) is None)
                &&& (forall|other: Seq<char>|
                    other != name@ ==> #[trigger] find_user(final(self).users(), other)
                        == find_user(old(self).users(), other))
            },
            final(self).sealed() == old(self).sealed(),
            final(self).root() == old(self).root(),
            final(self).enc_key() == old(self).enc_key(),
            final(self).sig_key() == old(self).sig_key(),
            final(self).secrets() == old(self).secrets(),
    {
        if self.gate.is_sealed() {
            return Err(DatabaseError::SealedError);
        }
        self.directory.delete(&name)
    }

    /// Log in with a credential: resolves the user and issues a signed
    /// token for `ttl` time units from `now`. Sealed-gated; a credential
    /// held by nobody uniformly fails with `UserNotFound`.
    pub fn login(&self, password: String, now: u64, ttl: u64) -> (r: Result<
        SessionToken,
        DatabaseError,
    >)
        requires
            self.wf(),
            now + ttl <= u64::MAX,
        ensures
            self.sealed() ==> r == Err::<SessionToken, DatabaseError>(DatabaseError::SealedError),
            !self.sealed() && find_cred(self.users(), password@) is None ==> (r matches Err(e)
                && e == DatabaseError::UserNotFound),
            !self.sealed() ==> (find_cred(self.users(), password@) matches Some(u) ==> (
            r matches Ok(t) && t@.subject == u.username && t@.role == u.role && t@.issued_at == now
                && t@.expires_at == now + ttl && token_signed(self.sig_key(), t@))),
    {
        if self.gate.is_sealed() {
            return Err(DatabaseError::SealedError);
        }
        match self.directory.find_by_credential(&password) {
            Err(e) => Err(e),
            Ok(user) => Ok(self.sessions.issue(&user, now, ttl)),
        }
    }

    /// Verify a bearer token against the clock reading `now`: a bad code
    /// fails with `InvalidToken`, a stale one with `Expired`. Stateless,
    /// so not sealed-gated.
    pub fn verify_session(&self, token: &SessionToken, now: u64) -> (r: Result<
        (String, Role),
        DatabaseError,
    >)
        requires
            self.wf(),
        ensures
            !token_signed(self.sig_key(), token@) ==> r == Err::<(String, Role), DatabaseError>(
                DatabaseError::InvalidToken,
            ),
            token_signed(self.sig_key(), token@) && now >= token@.expires_at ==> r == Err::<
                (String, Role),
                DatabaseError,
            >(DatabaseError::Expired),
            token_signed(self.sig_key(), token@) && now < token@.expires_at ==> (r matches Ok(p)
                && p.0@ == token@.subject && p.1 == token@.role),
    {
        self.sessions.verify_token(token, now)
    }
}

impl Default for InMemoryDatabase {
    /// A freshly provisioned store, as [`InMemoryDatabase::new`] builds
    /// it.
    fn default() -> (r: InMemoryDatabase)
        ensures
            r.wf(),
            r.sealed(),
            r.secrets().len() == 0,
            r.users().len() == 0,
    {
        InMemoryDatabase::new()
    }
}

} // verus!
