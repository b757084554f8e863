//! Session tokens: signed, stateless proofs of identity and role.
//!
//! A token carries its claims in the clear together with an
//! authentication code: the AES-GCM encryption of the canonical claim
//! encoding under a server-held signing key distinct from the root key
//! and the vault's encryption key. Verification recomputes the code from
//! the presented claims and compares; no server-side session table
//! exists, and expiry is checked against a caller-supplied clock.

use vstd::prelude::*;

verus! {

use crate::access::Role;
use crate::crypto::{aead_encrypt, bytes_eq, fresh_nonce, gcm_cipher, GCM_P_MAX, KEY_LEN, NONCE_LEN};
use crate::directory::User;
use crate::errors::DatabaseError;
use vstd::utf8::encode_utf8;

/// One byte standing for a role in the claim encoding.
pub open spec fn role_byte(role: Role) -> u8 {
    match role {
        Role::Guest => 0u8,
        Role::Admin => 1u8,
    }
}

/// `k` little-endian base-256 digits of `n`.
pub open spec fn le_bytes(n: nat, k: nat) -> Seq<u8>
    decreases k,
{
    if k == 0 {
        Seq::empty()
    } else {
        seq![(n % 256) as u8] + le_bytes(n / 256, (k - 1) as nat)
    }
}

proof fn lemma_le_bytes_len(n: nat, k: nat)
    ensures
        le_bytes(n, k).len() == k,
    decreases k,
{
    if k > 0 {
        lemma_le_bytes_len(n / 256, (k - 1) as nat);
    }
}

/// The canonical byte encoding of a token's claims: the UTF-8 subject,
/// one role byte, and the two timestamps in little-endian order.
pub open spec fn claims_bytes(subject: Seq<char>, role: Role, issued_at: u64, expires_at: u64) -> Seq<
    u8,
> {
    encode_utf8(subject) + seq![role_byte(role)] + le_bytes(issued_at as nat, 8) + le_bytes(
        expires_at as nat,
        8,
    )
}

/// A bearer token: the claims in the clear, the nonce of the signing
/// encryption, and the authentication code.
pub struct SessionToken {
    pub subject: String,
    pub role: Role,
    pub issued_at: u64,
    pub expires_at: u64,
    pub nonce: Vec<u8>,
    pub sig: Vec<u8>,
}

/// The mathematical image of one token.
pub ghost struct TokenV {
    pub subject: Seq<char>,
    pub role: Role,
    pub issued_at: u64,
    pub expires_at: u64,
    pub nonce: Seq<u8>,
    pub sig: Seq<u8>,
}

impl View for SessionToken {
    type V = TokenV;

    open spec fn view(&self) -> TokenV {
        TokenV {
            subject: self.subject@,
            role: self.role,
            issued_at: self.issued_at,
            expires_at: self.expires_at,
            nonce: self.nonce@,
            sig: self.sig@,
        }
    }
}

/// The token's code is the authentic signing encryption of its own
/// claims under `sk`.
pub open spec fn token_signed(sk: Seq<u8>, t: TokenV) -> bool {
    &&& t.nonce.len() == NONCE_LEN
    &&& encode_utf8(t.subject).len() + 17 < GCM_P_MAX
    &&& t.sig == gcm_cipher(sk, t.nonce, claims_bytes(t.subject, t.role, t.issued_at, t.expires_at))
}

/// Holds the signing secret; issues and verifies tokens statelessly.
pub struct SessionIssuer {
    signing_key: Vec<u8>,
}

impl SessionIssuer {
    /// The signing secret, as a byte sequence.
    pub closed spec fn sig_key(self) -> Seq<u8> {
        self.signing_key@
    }

    /// Internal invariant: a full-length signing key.
    pub closed spec fn wf(self) -> bool {
        self.signing_key@.len() == KEY_LEN
    }

    /// An issuer around the given signing secret.
    pub fn with_key(signing_key: Vec<u8>) -> (r: SessionIssuer)
        requires
            signing_key@.len() == KEY_LEN,
        ensures
            r.wf(),
            r.sig_key() == signing_key@,
    {
        SessionIssuer { signing_key }
    }

    /// Append the eight little-endian bytes of `n`.
    fn push_le_bytes(out: &mut Vec<u8>, n: u64)
        ensures
            final(out)@ == old(out)@ + le_bytes(n as nat, 8),
    {
        let ghost start = out@;
        let mut v: u64 = n;
        let mut k: usize = 0;
        while k < 8
            invariant
                k <= 8,
                start + le_bytes(n as nat, 8) == out@ + le_bytes(v as nat, (8 - k) as nat),
            decreases 8 - k,
        {
            let ghost pre = out@;
            let ghost vpre = v as nat;
            #[verifier::truncate]
            let b: u8 = (v % 256) as u8;
            out.push(b);
            v = v / 256;
            proof {
                assert(le_bytes(vpre, (8 - k) as nat) == seq![b] + le_bytes(
                    vpre / 256,
                    (8 - (k + 1)) as nat,
                ));
                assert(pre + le_bytes(vpre, (8 - k) as nat) =~= (pre + seq![b]) + le_bytes(
                    vpre / 256,
                    (8 - (k + 1)) as nat,
                ));
            }
            k += 1;
        }
        proof {
            assert(out@ + le_bytes(v as nat, 0) =~= out@);
        }
    }

    /// Build the canonical claim encoding.
    fn encode_claims(subject: &String, role: Role, issued_at: u64, expires_at: u64) -> (r: Vec<u8>)
        ensures
            r@ == claims_bytes(subject@, role, issued_at, expires_at),
            r@.len() == encode_utf8(subject@).len() + 17,
    {
        let mut out = subject.as_str().as_bytes_vec();
        let rb: u8 = match role {
            Role::Guest => 0u8,
            Role::Admin => 1u8,
        };
        out.push(rb);
        proof {
            assert(out@ =~= encode_utf8(subject@) + seq![role_byte(role)]);
        }
        Self::push_le_bytes(&mut out, issued_at);
        Self::push_le_bytes(&mut out, expires_at);
        proof {
            assert(out@ =~= claims_bytes(subject@, role, issued_at, expires_at));
            lemma_le_bytes_len(issued_at as nat, 8);
            lemma_le_bytes_len(expires_at as nat, 8);
        }
        out
    }

    /// Produce a signed token for `user`, issued at `now` and expiring
    /// `ttl` later.
    pub fn issue(&self, user: &User, now: u64, ttl: u64) -> (t: SessionToken)
        requires
            self.wf(),
            encode_utf8(user@.username).len() + 17 < GCM_P_MAX,
            now + ttl <= u64::MAX,
        ensures
            t@.subject == user@.username,
            t@.role == user@.role,
            t@.issued_at == now,
            t@.expires_at == now + ttl,
            token_signed(self.sig_key(), t@),
    {
        let expires_at = now + ttl;
        let nonce = fresh_nonce();
        let claims = Self::encode_claims(&user.username, user.role, now, expires_at);
        let sig = aead_encrypt(&self.signing_key, &nonce, &claims);
        SessionToken {
            subject: user.username.clone(),
            role: user.role,
            issued_at: now,
            expires_at,
            nonce,
            sig,
        }
    }

    /// Check the token's code and expiry against the clock reading
    /// `now`: a bad code fails with `InvalidToken`, a stale one with
    /// `Expired`; otherwise the token's subject and role are returned.
    pub fn verify_token(&self, t: &SessionToken, now: u64) -> (r: Result<
        (String, Role),
        DatabaseError,
    >)
        requires
            self.wf(),
        ensures
            !token_signed(self.sig_key(), t@) ==> r == Err::<(String, Role), DatabaseError>(
                DatabaseError::InvalidToken,
            ),
            token_signed(self.sig_key(), t@) && now >= t@.expires_at ==> r == Err::<
                (String, Role),
                DatabaseError,
            >(DatabaseError::Expired),
            token_signed(self.sig_key(), t@) && now < t@.expires_at ==> (r matches Ok(p) && p.0@
                == t@.subject && p.1 == t@.role),
    {
        if t.nonce.len() != NONCE_LEN {
            return Err(DatabaseError::InvalidToken);
        }
        let claims = Self::encode_claims(&t.subject, t.role, t.issued_at, t.expires_at);
        if !((claims.len() as u64) < GCM_P_MAX) {
            return Err(DatabaseError::InvalidToken);
        }
        let mac = aead_encrypt(&self.signing_key, &t.nonce, &claims);
        if !bytes_eq(&mac, &t.sig) {
            return Err(DatabaseError::InvalidToken);
        }
        if now >= t.expires_at {
            return Err(DatabaseError::Expired);
        }
        Ok((t.subject.clone(), t.role))
    }
}

} // verus!
