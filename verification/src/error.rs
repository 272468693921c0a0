//! The faults that encrypting or decrypting a file can end in.

use vstd::prelude::*;

verus! {

/// `std::io::Error`, carried through as it came from the operating system.
#[verifier::external_type_specification]
#[verifier::external_body]
pub struct ExIoError(std::io::Error);

/// Every way in which the encryption or decryption of a file can fail.
///
/// The kinds are deliberately coarse. In particular a failed decryption
/// never says whether the password, the nonce or the ciphertext was at
/// fault.
#[derive(Debug)]
pub enum CryptoError {
    /// Reading or writing a file failed.
    Io(std::io::Error),
    /// The cipher refused to encrypt.
    Encrypt,
    /// The stored bytes are too short to be a container.
    Decrypt,
    /// Wrong password, or the container was altered.
    AuthenticationFailed,
    /// Password and confirmation differ.
    PasswordMismatch,
}

/// `String::push_str` appends the characters of `string` to `s`.
pub assume_specification[ String::push_str ](s: &mut String, string: &str)
    ensures
        final(s)@ == old(s)@ + string@,
;

/// What `std::io::Error` prints as through `Display`, as `to_string` gives
/// it. The text comes from the operating system; nothing is claimed of it.
#[verifier::external_body]
fn io_error_text(e: &std::io::Error) -> (text: String) {
    e.to_string()
}

impl CryptoError {
    /// Whether two faults are of the same kind. Two I/O faults are, whatever
    /// the operating system reported.
    pub open spec fn same_kind(self, other: CryptoError) -> bool {
        match (self, other) {
            (CryptoError::Io(_), CryptoError::Io(_)) => true,
            (CryptoError::Encrypt, CryptoError::Encrypt) => true,
            (CryptoError::Decrypt, CryptoError::Decrypt) => true,
            (CryptoError::AuthenticationFailed, CryptoError::AuthenticationFailed) => true,
            (CryptoError::PasswordMismatch, CryptoError::PasswordMismatch) => true,
            _ => false,
        }
    }

    /// Whether `text` is a message of this fault. Every kind but the I/O
    /// fault has one fixed message; an I/O fault's message is a fixed
    /// prefix followed by the operating system's own words.
    pub open spec fn is_message(self, text: Seq<char>) -> bool {
        match self {
            CryptoError::Io(_) => "I/O error: "@.is_prefix_of(text),
            CryptoError::Encrypt => text == "Encryption failed"@,
            CryptoError::Decrypt => text == "Decryption failed"@,
            CryptoError::AuthenticationFailed => text == "Invalid password or corrupted file"@,
            CryptoError::PasswordMismatch => text == "Passwords do not match"@,
        }
    }

    /// The message to show to the user.
    ///
    /// An authentication failure has a single message: it does not say
    /// whether the password, the salt, the nonce or the ciphertext was at
    /// fault.
    pub fn message(&self) -> (text: String)
        ensures
            self.is_message(text@),
    {
        match self {
            CryptoError::Io(e) => {
                let mut text = "I/O error: ".to_owned();
                let detail = io_error_text(e);
                text.push_str(detail.as_str());
                text
            },
            CryptoError::Encrypt => "Encryption failed".to_owned(),
            CryptoError::Decrypt => "Decryption failed".to_owned(),
            CryptoError::AuthenticationFailed => "Invalid password or corrupted file".to_owned(),
            CryptoError::PasswordMismatch => "Passwords do not match".to_owned(),
        }
    }
}

/// A message tells the kind of fault: no text is the message of faults of
/// two different kinds. In particular a failed encryption and a failed
/// authentication never read like an I/O fault.
pub proof fn message_tells_kind(a: CryptoError, b: CryptoError, text: Seq<char>)
    requires
        a.is_message(text),
        b.is_message(text),
    ensures
        a.same_kind(b),
{
    reveal_strlit("I/O error: ");
    reveal_strlit("Encryption failed");
    reveal_strlit("Decryption failed");
    reveal_strlit("Invalid password or corrupted file");
    reveal_strlit("Passwords do not match");
    let prefix = "I/O error: "@;
    assert(prefix[0] == 'I' && prefix[1] == '/');
    assert("Encryption failed"@[0] == 'E');
    assert("Decryption failed"@[0] == 'D');
    assert("Invalid password or corrupted file"@[1] == 'n');
    assert("Passwords do not match"@[0] == 'P');
    if prefix.is_prefix_of(text) {
        let head = text.subrange(0, prefix.len() as int);
        assert(head[0] == text[0] && head[1] == text[1]);
    }
}

} // verus!
