//! The container: salt, nonce and ciphertext in one byte layout.
//!
//! ```text
//! [ 0..16 )  salt
//! [16..28 )  nonce
//! [28..   )  ciphertext, authentication tag included
//! ```
//!
//! There is no version tag and no length prefix: the ciphertext is whatever
//! follows the 28-byte header.

use crate::crypto::cipher::NONCE_LEN;
use crate::crypto::kdf::SALT_LEN;
use vstd::prelude::*;

verus! {

/// Length of the fixed header, salt and nonce together.
pub const HEADER_LEN: usize = 28;

/// What a container holds, as plain sequences of bytes.
pub struct Container {
    pub salt: Seq<u8>,
    pub nonce: Seq<u8>,
    pub ciphertext: Seq<u8>,
}

impl Container {
    /// A salt of 16 bytes and a nonce of 12; the ciphertext may have any
    /// length, zero included.
    pub open spec fn well_formed(self) -> bool {
        self.salt.len() == SALT_LEN && self.nonce.len() == NONCE_LEN
    }
}

/// The byte layout of a container: salt, then nonce, then ciphertext.
pub open spec fn encode(c: Container) -> Seq<u8> {
    c.salt + c.nonce + c.ciphertext
}

/// The container that a buffer parses into. A buffer shorter than the
/// header holds none; any other buffer holds exactly one.
pub open spec fn decode(bytes: Seq<u8>) -> Option<Container> {
    if bytes.len() < HEADER_LEN {
        None
    } else {
        Some(
            Container {
                salt: bytes.subrange(0, SALT_LEN as int),
                nonce: bytes.subrange(SALT_LEN as int, HEADER_LEN as int),
                ciphertext: bytes.subrange(HEADER_LEN as int, bytes.len() as int),
            },
        )
    }
}

/// Parsing undoes writing: the layout of a well-formed container parses,
/// and gives back the same salt, nonce and ciphertext.
pub proof fn decode_inverts_encode(c: Container)
    requires
        c.well_formed(),
    ensures
        decode(encode(c)) == Some(c),
{
    let bytes = encode(c);
    let parsed = decode(bytes).unwrap();
    assert(parsed.salt =~= c.salt);
    assert(parsed.nonce =~= c.nonce);
    assert(parsed.ciphertext =~= c.ciphertext);
}

/// Writing undoes parsing: every buffer that parses is the layout of the
/// container it parses into, so no two buffers hold the same container.
pub proof fn encode_inverts_decode(bytes: Seq<u8>)
    requires
        bytes.len() >= HEADER_LEN,
    ensures
        decode(bytes) matches Some(c) && c.well_formed() && encode(c) == bytes,
{
    let c = decode(bytes).unwrap();
    assert(encode(c) =~= bytes);
}

/// The header is the whole of the length check: a buffer parses exactly
/// when it has at least 28 bytes, and one of exactly 28 bytes holds an
/// empty ciphertext.
pub proof fn decode_boundary(bytes: Seq<u8>)
    ensures
        decode(bytes) is None <==> bytes.len() < 28,
        bytes.len() == 28 ==> decode(bytes).unwrap().ciphertext == Seq::<u8>::empty(),
{
    if bytes.len() == 28 {
        assert(decode(bytes).unwrap().ciphertext =~= Seq::<u8>::empty());
    }
}

/// The message with which a buffer shorter than the header is refused.
pub open spec fn too_short_message() -> Seq<char> {
    "Input too short for salt and nonce"@
}

/// An encrypted payload together with all that is needed to decrypt it,
/// apart from the password.
pub struct EncryptedFile {
    /// Salt of the key derivation.
    pub salt: [u8; 16],
    /// Nonce of the authenticated cipher.
    pub nonce: [u8; 12],
    /// The encrypted contents, authentication tag included.
    pub ciphertext: Vec<u8>,
}

impl View for EncryptedFile {
    type V = Container;

    open spec fn view(&self) -> Container {
        Container { salt: self.salt@, nonce: self.nonce@, ciphertext: self.ciphertext@ }
    }
}

/// Copies `N` bytes of `bytes`, from `start` on, into an array.
fn array_from<const N: usize>(bytes: &[u8], start: usize) -> (out: [u8; N])
    requires
        start + N <= bytes@.len(),
    ensures
        out@ == bytes@.subrange(start as int, start + N),
{
    let len: usize = bytes.len();
    let mut out = [0u8; N];
    let mut i: usize = 0;
    while i < N
        invariant
            i <= N,
            start + N <= len,
            len == bytes@.len(),
            out@.len() == N,
            forall|j: int| 0 <= j < i ==> out@[j] == bytes@[start + j],
        decreases N - i,
    {
        out[i] = bytes[start + i];
        i += 1;
    }
    assert(out@ =~= bytes@.subrange(start as int, start + N));
    out
}

impl EncryptedFile {
    /// Writes the container out as one contiguous buffer: salt, nonce,
    /// ciphertext, in that order and with nothing between them.
    pub fn serialize(&self) -> (bytes: Vec<u8>)
        ensures
            bytes@ == encode(self@),
            bytes@.len() == HEADER_LEN + self.ciphertext@.len(),
    {
        let mut result: Vec<u8> = Vec::new();
        result.extend_from_slice(self.salt.as_slice());
        result.extend_from_slice(self.nonce.as_slice());
        result.extend_from_slice(self.ciphertext.as_slice());
        assert(result@ =~= encode(self@));
        result
    }

    /// Parses a buffer back into a container.
    ///
    /// Only the length is looked at: a buffer of fewer than 28 bytes is
    /// refused, every other buffer parses. Whether the content is genuine
    /// is for the cipher to say when the ciphertext is opened.
    pub fn deserialize(bytes: &[u8]) -> (r: Result<Self, &'static str>)
        ensures
            r is Err <==> bytes@.len() < HEADER_LEN,
            r matches Err(message) ==> message@ == too_short_message(),
            r matches Ok(file) ==> decode(bytes@) == Some(file@),
    {
        if bytes.len() < 28 {
            return Err("Input too short for salt and nonce");
        }
        let salt: [u8; 16] = array_from::<16>(bytes, 0);
        let nonce: [u8; 12] = array_from::<12>(bytes, 16);
        let ciphertext = vstd::slice::slice_to_vec(vstd::slice::slice_subrange(bytes, 28, bytes.len()));
        Ok(EncryptedFile { salt, nonce, ciphertext })
    }
}

} // verus!
