//! The cryptographic primitives: key derivation and authenticated
//! encryption, with the random source that both draw on.

pub mod cipher;
pub mod entropy;
pub mod kdf;
