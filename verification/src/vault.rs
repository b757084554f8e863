//! The secret vault: a mapping from secret name to ciphertext.
//!
//! Each stored secret holds the nonce it was encrypted under and the
//! ciphertext with its authentication tag. The vault owns the encryption
//! key; reading a secret decrypts it and fails with a distinct error when
//! the integrity check fails. Role policy and seal gating are enforced by
//! the store that wraps this vault.

use vstd::prelude::*;

verus! {

use crate::crypto::{
    aead_decrypt,
    aead_encrypt,
    bytes_to_string,
    fresh_nonce,
    gcm_cipher,
    GCM_P_MAX,
    KEY_LEN,
    NONCE_LEN,
};
use crate::errors::DatabaseError;
use vstd::utf8::encode_utf8;

/// One secret at rest: its unique name, the nonce of its encryption, and
/// the ciphertext with the appended authentication tag.
pub struct StoredSecret {
    pub name: String,
    pub nonce: Vec<u8>,
    pub ciphertext: Vec<u8>,
}

/// The mathematical image of one stored secret.
pub ghost struct SecretV {
    pub name: Seq<char>,
    pub nonce: Seq<u8>,
    pub ct: Seq<u8>,
}

/// What the vault stores under one name: a nonce and a ciphertext.
pub ghost struct CipherEntry {
    pub nonce: Seq<u8>,
    pub ct: Seq<u8>,
}

impl View for StoredSecret {
    type V = SecretV;

    open spec fn view(&self) -> SecretV {
        SecretV { name: self.name@, nonce: self.nonce@, ct: self.ciphertext@ }
    }
}

/// The first entry named `name`, if any.
pub open spec fn find_sec(s: Seq<SecretV>, name: Seq<char>) -> Option<CipherEntry>
    decreases s.len(),
{
    if s.len() == 0 {
        None
    } else if s[0].name == name {
        Some(CipherEntry { nonce: s[0].nonce, ct: s[0].ct })
    } else {
        find_sec(s.drop_first(), name)
    }
}

/// No two entries share a name.
pub open spec fn unique_names(s: Seq<SecretV>) -> bool {
    forall|i: int, j: int| 0 <= i < j < s.len() ==> s[i].name != s[j].name
}

/// The entry under `name` is the authentic encryption of `p` (UTF-8
/// encoded) under `key` and the entry's own nonce.
pub open spec fn reads_back(key: Seq<u8>, entries: Seq<SecretV>, name: Seq<char>, p: Seq<char>) -> bool {
    exists|e: CipherEntry|
        find_sec(entries, name) == Some(e) && e.ct == gcm_cipher(key, e.nonce, encode_utf8(p))
}

/// The vault stores, under `name`, the authentic encryption of `value`
/// (UTF-8 encoded) with key `key` and some well-sized nonce.
pub open spec fn stores_value(
    key: Seq<u8>,
    entries: Seq<SecretV>,
    name: Seq<char>,
    value: Seq<char>,
) -> bool {
    &&& encode_utf8(value).len() < GCM_P_MAX
    &&& exists|nc: Seq<u8>|
        nc.len() == NONCE_LEN && find_sec(entries, name) == Some(
            CipherEntry { nonce: nc, ct: gcm_cipher(key, nc, encode_utf8(value)) },
        )
}

proof fn lemma_find_sec_none(s: Seq<SecretV>, name: Seq<char>)
    requires
        forall|j: int| 0 <= j < s.len() ==> (#[trigger] s[j]).name != name,
    ensures
        find_sec(s, name) is None,
    decreases s.len(),
{
    if s.len() > 0 {
        assert(forall|j: int|
            0 <= j < s.drop_first().len() ==> (#[trigger] s.drop_first()[j]).name != name);
        lemma_find_sec_none(s.drop_first(), name);
    }
}

proof fn lemma_find_sec_at(s: Seq<SecretV>, name: Seq<char>, i: int)
    requires
        0 <= i < s.len(),
        s[i].name == name,
        forall|j: int| 0 <= j < i ==> (#[trigger] s[j]).name != name,
    ensures
        find_sec(s, name) == Some(CipherEntry { nonce: s[i].nonce, ct: s[i].ct }),
    decreases i,
{
    if i > 0 {
        assert(forall|j: int|
            0 <= j < i - 1 ==> (#[trigger] s.drop_first()[j]).name != name) by {
            assert(forall|j: int|
                0 <= j < i - 1 ==> s.drop_first()[j] == s[j + 1] && (#[trigger] s[j + 1]).name
                    != name);
        }
        lemma_find_sec_at(s.drop_first(), name, i - 1);
    }
}

proof fn lemma_find_sec_push_miss(s: Seq<SecretV>, x: SecretV, name: Seq<char>)
    requires
        x.name != name,
    ensures
        find_sec(s.push(x), name) == find_sec(s, name),
    decreases s.len(),
{
    if s.len() == 0 {
        assert(s.push(x).drop_first() =~= Seq::<SecretV>::empty());
    } else {
        assert(s.push(x)[0] == s[0]);
        assert(s.push(x).drop_first() =~= s.drop_first().push(x));
        lemma_find_sec_push_miss(s.drop_first(), x, name);
    }
}

proof fn lemma_find_sec_push_hit(s: Seq<SecretV>, x: SecretV)
    requires
        forall|j: int| 0 <= j < s.len() ==> (#[trigger] s[j]).name != x.name,
    ensures
        find_sec(s.push(x), x.name) == Some(CipherEntry { nonce: x.nonce, ct: x.ct }),
{
    lemma_find_sec_at(s.push(x), x.name, s.len() as int);
}

proof fn lemma_find_sec_remove_miss(s: Seq<SecretV>, i: int, name: Seq<char>)
    requires
        0 <= i < s.len(),
        s[i].name != name,
    ensures
        find_sec(s.remove(i), name) == find_sec(s, name),
    decreases s.len(),
{
    if i == 0 {
        assert(s.remove(0) =~= s.drop_first());
    } else {
        assert(s.remove(i)[0] == s[0]);
        assert(s.remove(i).drop_first() =~= s.drop_first().remove(i - 1));
        if s[0].name != name {
            lemma_find_sec_remove_miss(s.drop_first(), i - 1, name);
        }
    }
}

/// The encryption key and the secrets at rest. Names are unique, and
/// every stored nonce has the cipher's nonce length.
pub struct SecretVault {
    key: Vec<u8>,
    secrets: Vec<StoredSecret>,
}

impl SecretVault {
    /// The encryption key, as a byte sequence.
    pub closed spec fn enc_key(self) -> Seq<u8> {
        self.key@
    }

    /// The stored secrets, in storage order.
    pub closed spec fn entries(self) -> Seq<SecretV> {
        Seq::new(self.secrets@.len(), |i: int| self.secrets@[i]@)
    }

    /// Internal invariant: a full-length key, unique names, well-sized
    /// nonces.
    pub closed spec fn wf(self) -> bool {
        &&& self.key@.len() == KEY_LEN
        &&& unique_names(self.entries())
        &&& forall|i: int|
            0 <= i < self.entries().len() ==> (#[trigger] self.entries()[i]).nonce.len()
                == NONCE_LEN
    }

    /// An empty vault around the given encryption key.
    pub fn with_key(key: Vec<u8>) -> (r: SecretVault)
        requires
            key@.len() == KEY_LEN,
        ensures
            r.wf(),
            r.enc_key() == key@,
            r.entries().len() == 0,
    {
        SecretVault { key, secrets: Vec::new() }
    }

    /// Index of the entry named `name`, if any.
    fn find_index(&self, name: &String) -> (r: Option<usize>)
        ensures
            r matches Some(i) ==> i < self.entries().len() && self.entries()[i as int].name
                == name@ && (forall|j: int|
                0 <= j < i ==> (#[trigger] self.entries()[j]).name != name@),
            r is None ==> forall|j: int|
                0 <= j < self.entries().len() ==> (#[trigger] self.entries()[j]).name != name@,
    {
        let n = self.secrets.len();
        let mut i: usize = 0;
        while i < n
            invariant
                n == self.entries().len(),
                i <= n,
                forall|j: int| 0 <= j < i ==> (#[trigger] self.entries()[j]).name != name@,
            decreases n - i,
        {
            if self.secrets[i].name == *name {
                return Some(i);
            }
            i += 1;
        }
        None
    }

    /// Store `(nonce, ciphertext)` under `name`, replacing any prior
    /// entry of that name.
    fn upsert(&mut self, name: String, nonce: Vec<u8>, ciphertext: Vec<u8>)
        requires
            old(self).wf(),
            nonce@.len() == NONCE_LEN,
        ensures
            final(self).wf(),
            final(self).enc_key() == old(self).enc_key(),
            find_sec(final(self).entries(), name@) == Some(
                CipherEntry { nonce: nonce@, ct: ciphertext@ },
            ),
            forall|other: Seq<char>|
                other != name@ ==> #[trigger] find_sec(final(self).entries(), other) == find_sec(
                    old(self).entries(),
                    other,
                ),
    {
        let ghost pre = self.entries();
        let found = self.find_index(&name);
        let ghost name_seq = name@;
        if let Some(i) = found {
            self.secrets.remove(i);
            proof {
                assert(self.entries() =~= pre.remove(i as int));
                assert(forall|j: int|
                    0 <= j < self.entries().len() ==> (#[trigger] self.entries()[j]).name
                        != name_seq);
            }
        }
        let ghost mid = self.entries();
        assert(forall|j: int| 0 <= j < mid.len() ==> (#[trigger] mid[j]).name != name_seq);
        let ghost x = SecretV { name: name@, nonce: nonce@, ct: ciphertext@ };
        self.secrets.push(StoredSecret { name, nonce, ciphertext });
        proof {
            assert(self.entries() =~= mid.push(x));
            lemma_find_sec_push_hit(mid, x);
            assert forall|other: Seq<char>| other != name_seq implies #[trigger] find_sec(
                self.entries(),
                other,
            ) == find_sec(pre, other) by {
                lemma_find_sec_push_miss(mid, x, other);
                if let Some(i) = found {
                    if pre[i as int].name != other {
                        lemma_find_sec_remove_miss(pre, i as int, other);
                    }
                }
            }
        }
    }

    /// Encrypt `value` under a fresh random nonce and store it under
    /// `name`, replacing any prior value of that name.
    pub fn insert_secret(&mut self, name: String, value: String)
        requires
            old(self).wf(),
            encode_utf8(value@).len() < GCM_P_MAX,
        ensures
            final(self).wf(),
            final(self).enc_key() == old(self).enc_key(),
            stores_value(final(self).enc_key(), final(self).entries(), name@, value@),
            forall|other: Seq<char>|
                other != name@ ==> #[trigger] find_sec(final(self).entries(), other) == find_sec(
                    old(self).entries(),
                    other,
                ),
    {
        let plaintext = value.as_str().as_bytes_vec();
        let nonce = fresh_nonce();
        let ciphertext = aead_encrypt(&self.key, &nonce, &plaintext);
        self.upsert(name, nonce, ciphertext);
    }

    /// Store raw `(nonce, ciphertext)` bytes under `name`, replacing any
    /// prior entry: the restore path for externally persisted ciphertext.
    pub fn insert_raw(&mut self, name: String, nonce: Vec<u8>, ciphertext: Vec<u8>)
        requires
            old(self).wf(),
            nonce@.len() == NONCE_LEN,
        ensures
            final(self).wf(),
            final(self).enc_key() == old(self).enc_key(),
            find_sec(final(self).entries(), name@) == Some(
                CipherEntry { nonce: nonce@, ct: ciphertext@ },
            ),
            forall|other: Seq<char>|
                other != name@ ==> #[trigger] find_sec(final(self).entries(), other) == find_sec(
                    old(self).entries(),
                    other,
                ),
    {
        self.upsert(name, nonce, ciphertext);
    }

    /// Decrypt one `(nonce, ciphertext)` pair and decode the plaintext as
    /// text. Returns the unique value whose encryption the ciphertext is,
    /// and nothing when the ciphertext is not an authentic encryption of
    /// any text.
    fn decrypt_entry(key: &Vec<u8>, nonce: &Vec<u8>, ciphertext: &Vec<u8>) -> (r: Option<String>)
        requires
            key@.len() == KEY_LEN,
            nonce@.len() == NONCE_LEN,
        ensures
            r matches Some(p) ==> ciphertext@ == gcm_cipher(key@, nonce@, encode_utf8(p@)),
            forall|p: Seq<char>|
                encode_utf8(p).len() < GCM_P_MAX && ciphertext@ == gcm_cipher(
                    key@,
                    nonce@,
                    encode_utf8(p),
                ) ==> (r matches Some(q) && q@ == p),
    {
        let r = match aead_decrypt(key, nonce, ciphertext) {
            None => None,
            Some(plaintext) => {
                let ghost pt = plaintext@;
                match bytes_to_string(plaintext) {
                    Some(text) => {
                        proof {
                            vstd::utf8::decode_utf8_encode_utf8(pt);
                        }
                        Some(text)
                    },
                    None => None,
                }
            },
        };
        proof {
            assert forall|p: Seq<char>|
                encode_utf8(p).len() < GCM_P_MAX && ciphertext@ == gcm_cipher(
                    key@,
                    nonce@,
                    encode_utf8(p),
                ) implies (r matches Some(q) && q@ == p) by {
                vstd::utf8::encode_utf8_valid_utf8(p);
                vstd::utf8::encode_utf8_decode_utf8(p);
            }
        }
        r
    }

    /// Decrypt the secret stored under `name`. Fails with `KeyNotFound`
    /// when the name is absent, and with `DecryptionError` when the
    /// stored bytes are not the authentic encryption of any value under
    /// the vault's key.
    pub fn read_secret(&self, name: &String) -> (r: Result<String, DatabaseError>)
        requires
            self.wf(),
        ensures
            r matches Ok(p) ==> reads_back(self.enc_key(), self.entries(), name@, p@),
            forall|p: Seq<char>|
                stores_value(self.enc_key(), self.entries(), name@, p) ==> (r matches Ok(q) && q@
                    == p),
            (r matches Err(e) && e == DatabaseError::KeyNotFound) <==> find_sec(
                self.entries(),
                name@,
            ) is None,
            r matches Err(e) ==> (e == DatabaseError::KeyNotFound || e
                == DatabaseError::DecryptionError),
    {
        let found = self.find_index(name);
        match found {
            None => {
                proof {
                    lemma_find_sec_none(self.entries(), name@);
                }
                Err(DatabaseError::KeyNotFound)
            },
            Some(i) => {
                proof {
                    lemma_find_sec_at(self.entries(), name@, i as int);
                }
                let entry = &self.secrets[i];
                let ghost e = CipherEntry { nonce: entry.nonce@, ct: entry.ciphertext@ };
                assert(find_sec(self.entries(), name@) == Some(e));
                match Self::decrypt_entry(&self.key, &entry.nonce, &entry.ciphertext) {
                    None => Err(DatabaseError::DecryptionError),
                    Some(text) => {
                        assert(reads_back(self.enc_key(), self.entries(), name@, text@)) by {
                            assert(find_sec(self.entries(), name@) == Some(e) && e.ct
                                == gcm_cipher(self.enc_key(), e.nonce, encode_utf8(text@)));
                        }
                        Ok(text)
                    },
                }
            },
        }
    }

    /// Remove the entry named `name`; fails with `KeyNotFound` when it is
    /// absent.
    pub fn remove_secret(&mut self, name: &String) -> (r: Result<(), DatabaseError>)
        requires
            old(self).wf(),
        ensures
            final(self).wf(),
            final(self).enc_key() == old(self).enc_key(),
            r is Ok <==> find_sec(old(self).entries(), name@) is Some,
            r matches Err(e) ==> e == DatabaseError::KeyNotFound && *final(self) == *old(self),
            r is Ok ==> find_sec(final(self).entries(), name@) is None,
            forall|other: Seq<char>|
                other != name@ ==> #[trigger] find_sec(final(self).entries(), other) == find_sec(
                    old(self).entries(),
                    other,
                ),
    {
        let ghost pre = self.entries();
        let found = self.find_index(name);
        match found {
            None => {
                proof {
                    lemma_find_sec_none(pre, name@);
                }
                Err(DatabaseError::KeyNotFound)
            },
            Some(i) => {
                proof {
                    lemma_find_sec_at(pre, name@, i as int);
                }
                self.secrets.remove(i);
                proof {
                    assert(self.entries() =~= pre.remove(i as int));
                    assert(forall|j: int|
                        0 <= j < self.entries().len() ==> (#[trigger] self.entries()[j]).name
                            != name@);
                    lemma_find_sec_none(self.entries(), name@);
                    assert forall|other: Seq<char>| other != name@ implies #[trigger] find_sec(
                        self.entries(),
                        other,
                    ) == find_sec(pre, other) by {
                        lemma_find_sec_remove_miss(pre, i as int, other);
                    }
                }
                Ok(())
            },
        }
    }

    /// The names of all stored secrets, in storage order; nothing is
    /// decrypted.
    pub fn names(&self) -> (r: Vec<String>)
        ensures
            r@.len() == self.entries().len(),
            forall|i: int| 0 <= i < r@.len() ==> (#[trigger] r@[i])@ == self.entries()[i].name,
    {
        let n = self.secrets.len();
        let mut out: Vec<String> = Vec::new();
        let mut i: usize = 0;
        while i < n
            invariant
                n == self.entries().len(),
                n == self.secrets@.len(),
                i <= n,
                out@.len() == i,
                forall|j: int| 0 <= j < i ==> (#[trigger] out@[j])@ == self.entries()[j].name,
            decreases n - i,
        {
            out.push(self.secrets[i].name.clone());
            i += 1;
        }
        out
    }

    /// The stored `(nonce, ciphertext)` bytes under `name`, if any: the
    /// persistence and inspection path; nothing is decrypted.
    pub fn stored_entry(&self, name: &String) -> (r: Option<(Vec<u8>, Vec<u8>)>)
        ensures
            r matches Some(t) ==> find_sec(self.entries(), name@) == Some(
                CipherEntry { nonce: t.0@, ct: t.1@ },
            ),
            r is None <==> find_sec(self.entries(), name@) is None,
    {
        let found = self.find_index(name);
        match found {
            None => {
                proof {
                    lemma_find_sec_none(self.entries(), name@);
                }
                None
            },
            Some(i) => {
                proof {
                    lemma_find_sec_at(self.entries(), name@, i as int);
                }
                let entry = &self.secrets[i];
                Some((entry.nonce.clone(), entry.ciphertext.clone()))
            },
        }
    }
}

} // verus!
