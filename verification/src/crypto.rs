//! The authenticated-encryption layer.
//!
//! One AES-256-GCM key encrypts and decrypts single values with a fresh
//! random 96-bit nonce per call. The cipher itself is the outside crate's;
//! its behaviour enters the proofs only through the contracts of the
//! trusted wrappers below, which name the ciphertext of given key, nonce
//! and plaintext [`gcm_cipher`] and state the documented round trip and
//! tag check over that name.

use aes_gcm::aead::{Aead, AeadCore, KeyInit};
use vstd::prelude::*;

verus! {

use vstd::utf8::{decode_utf8, encode_utf8, valid_utf8};

/// Byte length of an AES-256 key.
pub const KEY_LEN: usize = 32;

/// Byte length of an AES-GCM nonce.
pub const NONCE_LEN: usize = 12;

/// Byte length of the GCM authentication tag appended to a ciphertext.
pub const TAG_LEN: usize = 16;

/// Largest plaintext AES-GCM accepts, in bytes (2^36).
pub const GCM_P_MAX: u64 = 0x10_0000_0000;

/// The ciphertext (with appended tag) that AES-256-GCM produces for a
/// given key, nonce and plaintext. Encryption with a fixed nonce is a
/// deterministic function of these three arguments alone; what the bytes
/// are is not stated anywhere, only how encryption and decryption relate.
pub uninterp spec fn gcm_cipher(key: Seq<u8>, nonce: Seq<u8>, plaintext: Seq<u8>) -> Seq<u8>;

/// Relies on `aes_gcm::Aes256Gcm` through the `Aead` trait: `encrypt` is
/// deterministic in key, nonce and plaintext, and returns the encrypted
/// plaintext with the 16-byte authentication tag appended.
#[verifier::external_body]
pub(crate) fn aead_encrypt(key: &Vec<u8>, nonce: &Vec<u8>, plaintext: &Vec<u8>) -> (r: Vec<u8>)
    requires
        key@.len() == KEY_LEN,
        nonce@.len() == NONCE_LEN,
        plaintext@.len() < GCM_P_MAX,
    ensures
        r@ == gcm_cipher(key@, nonce@, plaintext@),
        r@.len() == plaintext@.len() + TAG_LEN,
{
    let cipher = aes_gcm::Aes256Gcm::new(aes_gcm::Key::<aes_gcm::Aes256Gcm>::from_slice(key));
    cipher
        .encrypt(aes_gcm::Nonce::from_slice(nonce), plaintext.as_slice())
        .expect("plaintext length is within the AES-GCM bound")
}

/// Relies on `aes_gcm::Aes256Gcm` through the `Aead` trait: `decrypt`
/// reverses `encrypt` under the same key and nonce, and fails whenever the
/// authentication tag does not verify, i.e. whenever the ciphertext is not
/// the authentic encryption of any plaintext under that key and nonce.
#[verifier::external_body]
pub(crate) fn aead_decrypt(key: &Vec<u8>, nonce: &Vec<u8>, ciphertext: &Vec<u8>) -> (r: Option<Vec<u8>>)
    requires
        key@.len() == KEY_LEN,
        nonce@.len() == NONCE_LEN,
    ensures
        r matches Some(q) ==> ciphertext@ == gcm_cipher(key@, nonce@, q@),
        r matches Some(q) ==> forall|p: Seq<u8>|
            p.len() < GCM_P_MAX && ciphertext@ == gcm_cipher(key@, nonce@, p) ==> q@ == p,
        r is None ==> forall|p: Seq<u8>|
            p.len() < GCM_P_MAX ==> ciphertext@ != gcm_cipher(key@, nonce@, p),
{
    let cipher = aes_gcm::Aes256Gcm::new(aes_gcm::Key::<aes_gcm::Aes256Gcm>::from_slice(key));
    cipher.decrypt(aes_gcm::Nonce::from_slice(nonce), ciphertext.as_slice()).ok()
}

/// Relies on `aes_gcm`'s `generate_key` with the OS random source: the
/// result is a fresh 256-bit key. The bytes are random, so nothing is
/// assumed of them beyond the length.
#[verifier::external_body]
pub(crate) fn fresh_key() -> (r: Vec<u8>)
    ensures
        r@.len() == KEY_LEN,
{
    aes_gcm::Aes256Gcm::generate_key(aes_gcm::aead::OsRng).to_vec()
}

/// Relies on `aes_gcm`'s `generate_nonce` with the OS random source: the
/// result is a fresh 96-bit nonce. The bytes are random, so nothing is
/// assumed of them beyond the length.
#[verifier::external_body]
pub(crate) fn fresh_nonce() -> (r: Vec<u8>)
    ensures
        r@.len() == NONCE_LEN,
{
    aes_gcm::Aes256Gcm::generate_nonce(aes_gcm::aead::OsRng).to_vec()
}

/// Number of characters in a generated credential or root key.
pub const CREDENTIAL_LEN: usize = 20;

/// Relies on `nanoid::format` with the crate's default random source and
/// its URL-safe alphabet: the result has exactly `CREDENTIAL_LEN`
/// characters, drawn at random, so nothing is assumed beyond the length.
#[verifier::external_body]
pub(crate) fn fresh_credential() -> (r: String)
    ensures
        r@.len() == CREDENTIAL_LEN,
{
    nanoid::format(nanoid::rngs::default, &nanoid::alphabet::SAFE, CREDENTIAL_LEN)
}

/// Relies on `String::from_utf8`: it succeeds exactly on valid UTF-8 input
/// and decodes it, and rejects every other byte sequence.
#[verifier::external_body]
pub(crate) fn bytes_to_string(bytes: Vec<u8>) -> (r: Option<String>)
    ensures
        r matches Some(s) ==> valid_utf8(bytes@) && s@ == decode_utf8(bytes@),
        r is None ==> !valid_utf8(bytes@),
{
    String::from_utf8(bytes).ok()
}

/// Accumulating the bitwise difference keeps the comparison free of an
/// early exit on the first mismatching byte.
proof fn lemma_or_xor_zero(d: u8, x: u8, y: u8)
    ensures
        ((d | (x ^ y)) == 0) == (d == 0 && x == y),
{
    assert(((d | (x ^ y)) == 0) == (d == 0 && x == y)) by (bit_vector);
}

/// Equality of two byte strings, computed by folding the bitwise
/// difference over the whole length rather than stopping at the first
/// mismatch.
pub fn bytes_eq(a: &Vec<u8>, b: &Vec<u8>) -> (r: bool)
    ensures
        r == (a@ == b@),
{
    if a.len() != b.len() {
        return false;
    }
    let n = a.len();
    let mut diff: u8 = 0;
    let mut i: usize = 0;
    while i < n
        invariant
            n == a@.len(),
            n == b@.len(),
            i <= n,
            (diff == 0) <==> (forall|j: int| 0 <= j < i ==> a@[j] == b@[j]),
        decreases n - i,
    {
        let x = a[i];
        let y = b[i];
        proof {
            lemma_or_xor_zero(diff, x, y);
        }
        diff = diff | (x ^ y);
        i += 1;
    }
    if diff == 0 {
        proof {
            assert(a@ =~= b@);
        }
        true
    } else {
        false
    }
}

/// Two character sequences are equal exactly when their UTF-8 encodings
/// are: the encoding is injective.
proof fn lemma_utf8_eq(s1: Seq<char>, s2: Seq<char>)
    ensures
        (encode_utf8(s1) == encode_utf8(s2)) == (s1 == s2),
{
    if encode_utf8(s1) == encode_utf8(s2) {
        vstd::utf8::encode_utf8_decode_utf8(s1);
        vstd::utf8::encode_utf8_decode_utf8(s2);
    }
}

/// Equality of two secret strings, compared byte for byte over the whole
/// length rather than stopping at the first mismatch.
pub fn str_eq(a: &String, b: &String) -> (r: bool)
    ensures
        r == (a@ == b@),
{
    let a_bytes = a.as_str().as_bytes_vec();
    let b_bytes = b.as_str().as_bytes_vec();
    let r = bytes_eq(&a_bytes, &b_bytes);
    proof {
        lemma_utf8_eq(a@, b@);
    }
    r
}

} // verus!
