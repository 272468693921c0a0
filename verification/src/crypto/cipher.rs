//! Authenticated encryption with AES-256 in Galois/Counter Mode.
//!
//! A whole buffer is sealed in one operation under a 256-bit key and a
//! 96-bit nonce. The ciphertext carries a 128-bit authentication tag at its
//! end. Opening it fails, without saying why, when the key or the nonce is
//! not the one it was sealed under, or when any byte of it was altered.

use crate::crypto::entropy::os_random;
use aes_gcm::aead::{Aead, KeyInit};
use aes_gcm::{Aes256Gcm, Key, Nonce};
use vstd::prelude::*;

verus! {

/// Length of the nonce in bytes.
pub const NONCE_LEN: usize = 12;

/// Length of the authentication tag in bytes.
pub const TAG_LEN: usize = 16;

/// Longest plaintext, in bytes, that one AES-GCM operation takes: 2^36.
pub const MAX_PLAINTEXT_LEN: u64 = 0x10_0000_0000;

/// The error of `aes_gcm`: opaque on purpose, with nothing inside.
#[verifier::external_type_specification]
#[verifier::external_body]
pub struct ExCipherError(aes_gcm::Error);

/// The ciphertext, tag included, that AES-256-GCM gives for a plaintext
/// under a key and a nonce, with no associated data.
pub uninterp spec fn aes256gcm_seal(key: Seq<u8>, nonce: Seq<u8>, plaintext: Seq<u8>) -> Seq<u8>;

/// The plaintext that AES-256-GCM gives back for a ciphertext under a key
/// and a nonce, with no associated data; `None` where it refuses the
/// ciphertext.
pub uninterp spec fn aes256gcm_open(key: Seq<u8>, nonce: Seq<u8>, ciphertext: Seq<u8>) -> Option<
    Seq<u8>,
>;

/// Seals `data` with `Aead::encrypt` on an `aes_gcm::Aes256Gcm` made with
/// `KeyInit::new` from `key`.
///
/// Claimed of it: it fails exactly on a plaintext of more than 2^36 bytes;
/// what it returns depends on key, nonce and plaintext alone; the
/// ciphertext is the plaintext's length plus the 16 bytes of the tag; and
/// the same key and nonce open that ciphertext to the plaintext again.
#[verifier::external_body]
fn aes256gcm_encrypt(key: &[u8; 32], nonce: &[u8; 12], data: &[u8]) -> (r: Result<
    Vec<u8>,
    aes_gcm::Error,
>)
    ensures
        r is Ok <==> data@.len() <= MAX_PLAINTEXT_LEN,
        r matches Ok(c) ==> c@ == aes256gcm_seal(key@, nonce@, data@),
        r matches Ok(c) ==> c@.len() == data@.len() + TAG_LEN,
        r matches Ok(c) ==> aes256gcm_open(key@, nonce@, c@) == Some(data@),
{
    let cipher = Aes256Gcm::new(Key::<Aes256Gcm>::from_slice(key));
    cipher.encrypt(Nonce::from_slice(nonce), data)
}

/// Opens `ciphertext` with `Aead::decrypt` on an `aes_gcm::Aes256Gcm` made
/// with `KeyInit::new` from `key`.
///
/// Claimed of it: whether it succeeds, and with what, depends on key,
/// nonce and ciphertext alone; and a plaintext that comes back is 16 bytes,
/// the tag, shorter than the ciphertext, so that nothing under 16 bytes
/// opens.
#[verifier::external_body]
fn aes256gcm_decrypt(key: &[u8; 32], nonce: &[u8; 12], ciphertext: &[u8]) -> (r: Result<
    Vec<u8>,
    aes_gcm::Error,
>)
    ensures
        r is Ok <==> aes256gcm_open(key@, nonce@, ciphertext@) is Some,
        r matches Ok(p) ==> aes256gcm_open(key@, nonce@, ciphertext@) == Some(p@),
        r matches Ok(p) ==> p@.len() + TAG_LEN == ciphertext@.len(),
{
    let cipher = Aes256Gcm::new(Key::<Aes256Gcm>::from_slice(key));
    cipher.decrypt(Nonce::from_slice(nonce), ciphertext)
}

/// Encrypts `data` under a key and a nonce that the caller supplies.
///
/// A nonce must never serve twice under one key: whoever calls this
/// answers for that. [`encrypt`] draws a fresh one itself.
///
/// Fails only on a plaintext longer than 2^36 bytes. The ciphertext ends in
/// the authentication tag, and `decrypt` with the same key and nonce gives
/// the plaintext back.
pub fn encrypt_with_nonce(data: &[u8], key_bytes: &[u8; 32], nonce_bytes: &[u8; 12]) -> (r: Result<
    Vec<u8>,
    (),
>)
    ensures
        r is Ok <==> data@.len() <= MAX_PLAINTEXT_LEN,
        r matches Ok(c) ==> c@ == aes256gcm_seal(key_bytes@, nonce_bytes@, data@),
        r matches Ok(c) ==> c@.len() == data@.len() + TAG_LEN,
        r matches Ok(c) ==> aes256gcm_open(key_bytes@, nonce_bytes@, c@) == Some(data@),
{
    match aes256gcm_encrypt(key_bytes, nonce_bytes, data) {
        Ok(ciphertext) => Ok(ciphertext),
        Err(_) => Err(()),
    }
}

/// Encrypts `data` under `key_bytes` and a nonce drawn for this one call
/// from the operating system's secure random source.
///
/// Returns the ciphertext, authentication tag included, and the nonce, which
/// has to be kept with it. Fails only on a plaintext longer than 2^36 bytes.
/// `decrypt` with the same key and the returned nonce gives the plaintext
/// back.
pub fn encrypt(data: &[u8], key_bytes: &[u8; 32]) -> (r: Result<(Vec<u8>, [u8; NONCE_LEN]), ()>)
    ensures
        r is Ok <==> data@.len() <= MAX_PLAINTEXT_LEN,
        r matches Ok((c, n)) ==> c@ == aes256gcm_seal(key_bytes@, n@, data@),
        r matches Ok((c, n)) ==> c@.len() == data@.len() + TAG_LEN,
        r matches Ok((c, n)) ==> aes256gcm_open(key_bytes@, n@, c@) == Some(data@),
{
    let nonce_bytes: [u8; 12] = os_random::<12>();
    match encrypt_with_nonce(data, key_bytes, &nonce_bytes) {
        Ok(ciphertext) => Ok((ciphertext, nonce_bytes)),
        Err(_) => Err(()),
    }
}

/// Decrypts `ciphertext` and checks its authentication tag.
///
/// Succeeds exactly where AES-256-GCM accepts the ciphertext under this key
/// and nonce, and then returns the plaintext, 16 bytes shorter. Every
/// failure is the same `Err(())`: a wrong key, a wrong nonce and an altered
/// ciphertext cannot be told apart.
pub fn decrypt(ciphertext: &[u8], key_bytes: &[u8; 32], nonce_bytes: &[u8; NONCE_LEN]) -> (r:
    Result<Vec<u8>, ()>)
    ensures
        r is Ok <==> aes256gcm_open(key_bytes@, nonce_bytes@, ciphertext@) is Some,
        r matches Ok(p) ==> aes256gcm_open(key_bytes@, nonce_bytes@, ciphertext@) == Some(p@),
        r matches Ok(p) ==> p@.len() + TAG_LEN == ciphertext@.len(),
        ciphertext@.len() < TAG_LEN ==> r is Err,
{
    match aes256gcm_decrypt(key_bytes, nonce_bytes, ciphertext) {
        Ok(plaintext) => Ok(plaintext),
        Err(_) => Err(()),
    }
}

} // verus!
