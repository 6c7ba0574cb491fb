//! The secure channel: authenticated encryption and decryption of opaque
//! byte payloads under a 256-bit key and a 96-bit nonce, with associated
//! data bound to the ciphertext.
//!
//! The cipher itself is AES-GCM-SIV, called through trusted wrappers.
//! Verified code reasons about it through the name [`ciphertext_of`]: the
//! ciphertext is a pure function of key, nonce, plaintext and associated
//! data, and decrypting a value of that shape yields the plaintext back.

use aes_gcm_siv::aead::generic_array::GenericArray;
use aes_gcm_siv::aead::{Aead, Payload};
use aes_gcm_siv::{Aes256GcmSiv, KeyInit};
use vstd::prelude::*;

verus! {

/// A failure of the secure channel: the cipher refused to encrypt an
/// over-long input, or a ciphertext failed authentication.
#[derive(Clone, Copy, PartialEq, Eq, Structural, Debug)]
pub enum CryptoError {
    Encrypt,
    Decrypt,
}

/// The ciphertext that AES-GCM-SIV produces for the given 32-byte key,
/// 12-byte nonce, plaintext and associated data. The cipher is
/// deterministic, so the result is a function of these four arguments
/// alone.
pub uninterp spec fn ciphertext_of(
    key: Seq<u8>,
    nonce: Seq<u8>,
    plaintext: Seq<u8>,
    aad: Seq<u8>,
) -> Seq<u8>;

/// The plaintext that AES-GCM-SIV decryption recovers from the given
/// 32-byte key, 12-byte nonce, ciphertext and associated data — `None`
/// when authentication fails. Decryption is stateless and deterministic,
/// so the result is a function of these four arguments alone: two calls
/// on the same arguments return the same value.
pub uninterp spec fn plaintext_of(
    key: Seq<u8>,
    nonce: Seq<u8>,
    ciphertext: Seq<u8>,
    aad: Seq<u8>,
) -> Option<Seq<u8>>;

/// The largest plaintext and the largest associated data, in bytes, that
/// AES-GCM-SIV accepts.
pub const MAX_PAYLOAD_LEN: u64 = 0x10_0000_0000;

/// Encrypts `plaintext` under `key` and `nonce`, binding
/// `associated_data` to the ciphertext without encrypting it.
///
/// Nonce uniqueness per key is the caller's responsibility: reusing a
/// nonce with the same key degrades confidentiality.
///
/// Relies on `aes_gcm_siv::Aes256GcmSiv` through `aead::Aead::encrypt`:
/// encryption is deterministic, fails exactly when the plaintext or the
/// associated data is longer than 2^36 bytes, and appends a 16-byte
/// authentication tag to the encrypted payload.
#[verifier::external_body]
pub fn basic_encrypt(
    key: &[u8; 32],
    nonce: &[u8; 12],
    plaintext: &[u8],
    associated_data: &[u8],
) -> (r: Result<Vec<u8>, CryptoError>)
    ensures
        r is Ok <== plaintext@.len() <= MAX_PAYLOAD_LEN
            && associated_data@.len() <= MAX_PAYLOAD_LEN,
        r is Ok ==> plaintext@.len() <= MAX_PAYLOAD_LEN
            && associated_data@.len() <= MAX_PAYLOAD_LEN,
        r is Ok ==> r->Ok_0@ == ciphertext_of(key@, nonce@, plaintext@, associated_data@)
            && r->Ok_0@.len() == plaintext@.len() + 16,
{
    let cipher = Aes256GcmSiv::new(GenericArray::from_slice(key));
    let nonce = GenericArray::from_slice(nonce);
    let payload = Payload { msg: plaintext, aad: associated_data };
    cipher.encrypt(nonce, payload).map_err(|_| CryptoError::Encrypt)
}

/// Decrypts `ciphertext` under `key` and `nonce`, checking its
/// authenticity together with `associated_data`. Fails with
/// [`CryptoError::Decrypt`] rather than returning partially decrypted
/// data.
///
/// Relies on `aes_gcm_siv::Aes256GcmSiv` through `aead::Aead::decrypt`:
/// decryption is stateless and deterministic (named by [`plaintext_of`]);
/// decrypting the ciphertext that `encrypt` produced for a plaintext,
/// under the same key, nonce and associated data, authenticates and
/// yields exactly that plaintext; and it succeeds only on such a
/// ciphertext — never on anything else, and never with partially
/// decrypted data. In particular a ciphertext shorter than the 16-byte
/// authentication tag always fails.
#[verifier::external_body]
pub fn basic_decrypt(
    key: &[u8; 32],
    nonce: &[u8; 12],
    ciphertext: &[u8],
    associated_data: &[u8],
) -> (r: Result<Vec<u8>, CryptoError>)
    ensures
        r is Ok ==> exists|p: Seq<u8>|
            p.len() + 16 == ciphertext@.len() && ciphertext@ == ciphertext_of(
                key@,
                nonce@,
                p,
                associated_data@,
            ) && r->Ok_0@ == p,
        r is Ok ==> plaintext_of(key@, nonce@, ciphertext@, associated_data@) == Some(r->Ok_0@),
        r is Ok <== plaintext_of(key@, nonce@, ciphertext@, associated_data@) is Some,
        forall|p: Seq<u8>|
            p.len() <= MAX_PAYLOAD_LEN && associated_data@.len() <= MAX_PAYLOAD_LEN
                && ciphertext@ == ciphertext_of(key@, nonce@, p, associated_data@)
                ==> r is Ok && r->Ok_0@ == p,
{
    let cipher = Aes256GcmSiv::new(GenericArray::from_slice(key));
    let nonce = GenericArray::from_slice(nonce);
    let payload = Payload { msg: ciphertext, aad: associated_data };
    cipher.decrypt(nonce, payload).map_err(|_| CryptoError::Decrypt)
}

/// Generates a fresh 256-bit key from the operating system's
/// cryptographically secure random source.
///
/// Relies on `getrandom::getrandom` to fill the key; nothing is promised
/// of the value, since it depends on the random source. Aborts only if
/// the operating system's random source itself fails.
#[verifier::external_body]
pub fn generate_key() -> (r: [u8; 32]) {
    let mut key = [0u8; 32];
    getrandom::getrandom(&mut key).expect("random source failed");
    key
}

} // verus!
