//! Password-based protection of a single file: a key is derived from a
//! password with Argon2id, the file is sealed with AES-256-GCM, and salt,
//! nonce and ciphertext are kept together in one self-contained container.

pub mod cli;
pub mod crypto;
pub mod error;
pub mod metadata;
pub mod workflow;
