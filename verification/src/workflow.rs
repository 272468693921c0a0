//! The two pipelines, from bytes to bytes.
//!
//! Sealing draws a salt, derives the key, encrypts under a fresh nonce and
//! lays salt, nonce and ciphertext out as one container. Opening parses the
//! container, derives the key from the stored salt and the password given,
//! and decrypts under the stored nonce. Reading and writing the files, and
//! asking for the password, are left to the caller.

use crate::crypto::cipher::{aes256gcm_open, aes256gcm_seal, decrypt, encrypt, MAX_PLAINTEXT_LEN};
use crate::crypto::kdf::{derive_key, derived_key, generate_salt, MAX_INPUT_LEN};
use crate::error::CryptoError;
use crate::metadata::{decode, decode_inverts_encode, encode, Container, EncryptedFile};
use vstd::prelude::*;
use vstd::utf8::{encode_utf8, encode_utf8_decode_utf8};

verus! {

/// What opening a stored buffer under a password, given as its UTF-8
/// bytes, comes to: a buffer too short for the header is a decode failure;
/// one that parses is handed to the cipher under the key derived from the
/// stored salt, and is either refused or opened.
pub open spec fn opened(password: Seq<u8>, bytes: Seq<u8>) -> Result<Seq<u8>, CryptoError> {
    match decode(bytes) {
        None => Err(CryptoError::Decrypt),
        Some(c) => match aes256gcm_open(derived_key(password, c.salt), c.nonce, c.ciphertext) {
            None => Err(CryptoError::AuthenticationFailed),
            Some(plaintext) => Ok(plaintext),
        },
    }
}

/// Whether two buffers hold the same bytes.
fn same_bytes(a: &[u8], b: &[u8]) -> (same: bool)
    ensures
        same == (a@ == b@),
{
    if a.len() != b.len() {
        return false;
    }
    let mut i: usize = 0;
    while i < a.len()
        invariant
            i <= a@.len(),
            a@.len() == b@.len(),
            forall|j: int| 0 <= j < i ==> a@[j] == b@[j],
        decreases a@.len() - i,
    {
        if a[i] != b[i] {
            return false;
        }
        i += 1;
    }
    assert(a@ =~= b@);
    true
}

/// Checks a password against its confirmation, before any cryptographic
/// work is done.
pub fn confirm_password(password: &str, confirm: &str) -> (r: Result<(), CryptoError>)
    ensures
        r is Ok <==> password@ == confirm@,
        r matches Err(e) ==> e == CryptoError::PasswordMismatch,
{
    proof {
        encode_utf8_decode_utf8(password@);
        encode_utf8_decode_utf8(confirm@);
    }
    if same_bytes(password.as_bytes(), confirm.as_bytes()) {
        Ok(())
    } else {
        Err(CryptoError::PasswordMismatch)
    }
}

/// Turns the outcome of the cipher into the bytes to store: on success
/// the container of salt, nonce and ciphertext, laid out; on failure the
/// encryption fault.
pub fn bundle(salt: [u8; 16], outcome: Result<(Vec<u8>, [u8; 12]), ()>) -> (r: Result<
    Vec<u8>,
    CryptoError,
>)
    ensures
        outcome is Err ==> r == Err::<Vec<u8>, CryptoError>(CryptoError::Encrypt),
        outcome matches Ok((ciphertext, nonce)) ==> r matches Ok(bytes) && bytes@ == encode(
            Container { salt: salt@, nonce: nonce@, ciphertext: ciphertext@ },
        ),
{
    match outcome {
        Ok((ciphertext, nonce)) => {
            let encrypted = EncryptedFile { salt, nonce, ciphertext };
            Ok(encrypted.serialize())
        },
        Err(_) => Err(CryptoError::Encrypt),
    }
}

/// Turns the outcome of the cipher into the result of opening: the
/// plaintext, or the one authentication fault that stands for a wrong
/// password, a wrong nonce and an altered ciphertext alike.
pub fn authenticated(outcome: Result<Vec<u8>, ()>) -> (r: Result<Vec<u8>, CryptoError>)
    ensures
        outcome is Err ==> r == Err::<Vec<u8>, CryptoError>(CryptoError::AuthenticationFailed),
        outcome matches Ok(plaintext) ==> r == Ok::<Vec<u8>, CryptoError>(plaintext),
{
    match outcome {
        Ok(plaintext) => Ok(plaintext),
        Err(_) => Err(CryptoError::AuthenticationFailed),
    }
}

/// Seals `data` under `password` into the bytes of a container.
///
/// The confirmation is checked first. Then a fresh salt is drawn, the key
/// derived from password and salt, and the data encrypted under a fresh
/// nonce. The bytes that come back are salt, nonce and ciphertext, and
/// `decrypt_flow` with the same password opens them to `data` again.
pub fn encrypt_flow(password: &str, confirm: &str, data: &[u8]) -> (r: Result<Vec<u8>, CryptoError>)
    requires
        encode_utf8(password@).len() <= MAX_INPUT_LEN,
    ensures
        r is Ok <==> password@ == confirm@ && data@.len() <= MAX_PLAINTEXT_LEN,
        password@ != confirm@ ==> r == Err::<Vec<u8>, CryptoError>(CryptoError::PasswordMismatch),
        password@ == confirm@ && data@.len() > MAX_PLAINTEXT_LEN ==> r == Err::<
            Vec<u8>,
            CryptoError,
        >(CryptoError::Encrypt),
        r matches Ok(bytes) ==> {
            &&& decode(bytes@) matches Some(c)
            &&& c.ciphertext == aes256gcm_seal(
                derived_key(encode_utf8(password@), c.salt),
                c.nonce,
                data@,
            )
            &&& opened(encode_utf8(password@), bytes@) == Ok::<Seq<u8>, CryptoError>(data@)
        },
{
    match confirm_password(password, confirm) {
        Err(e) => {
            return Err(e);
        },
        Ok(_) => {},
    }
    let salt = generate_salt();
    let key = derive_key(password, salt.as_slice());
    let outcome = encrypt(data, &key);
    proof {
        if outcome is Ok {
            decode_inverts_encode(
                Container {
                    salt: salt@,
                    nonce: outcome->Ok_0.1@,
                    ciphertext: outcome->Ok_0.0@,
                },
            );
        }
    }
    bundle(salt, outcome)
}

/// Opens the bytes of a container under `password`.
///
/// Bytes too short to hold salt and nonce are a decode failure, found
/// before any cryptography runs. Bytes that parse are decrypted under the
/// key derived from the stored salt; what the cipher refuses is an
/// authentication failure, whatever the cause.
pub fn decrypt_flow(password: &str, bytes: &[u8]) -> (r: Result<Vec<u8>, CryptoError>)
    requires
        encode_utf8(password@).len() <= MAX_INPUT_LEN,
    ensures
        match opened(encode_utf8(password@), bytes@) {
            Ok(plaintext) => r matches Ok(v) && v@ == plaintext,
            Err(e) => r == Err::<Vec<u8>, CryptoError>(e),
        },
{
    let encrypted = match EncryptedFile::deserialize(bytes) {
        Ok(file) => file,
        Err(_) => {
            return Err(CryptoError::Decrypt);
        },
    };
    let key = derive_key(password, encrypted.salt.as_slice());
    authenticated(decrypt(encrypted.ciphertext.as_slice(), &key, &encrypted.nonce))
}

} // verus!
