//! Key derivation: from a password and a salt to a 256-bit key, with
//! Argon2id at fixed cost parameters.
//!
//! The cost parameters are part of the container format. A file sealed
//! under one set of them cannot be opened under another, so they are
//! constants here and never configurable.

use crate::crypto::entropy::os_random;
use argon2::{Algorithm, Argon2, Params, Version};
use vstd::prelude::*;
use vstd::utf8::encode_utf8;

verus! {

/// Length of the salt in bytes.
pub const SALT_LEN: usize = 16;

/// Length of the derived key in bytes.
pub const KEY_LEN: usize = 32;

/// Memory cost of the derivation, in KiB: 19 MiB.
pub const MEMORY_COST: u32 = 19456;

/// Number of passes over the memory.
pub const TIME_COST: u32 = 2;

/// Number of lanes. One, so that the derivation takes the same course on
/// every host.
pub const PARALLELISM: u32 = 1;

/// Shortest salt that Argon2 takes.
pub const MIN_SALT_LEN: usize = 8;

/// Longest password, and longest salt, that Argon2 takes.
pub const MAX_INPUT_LEN: u64 = 0xFFFF_FFFF;

/// The tag of `len` bytes that Argon2id, version 0x13, computes from a
/// password and a salt at the given memory cost (in KiB), number of passes
/// and number of lanes, with no secret and no associated data.
pub uninterp spec fn argon2id(
    password: Seq<u8>,
    salt: Seq<u8>,
    m_cost: u32,
    t_cost: u32,
    p_cost: u32,
    len: nat,
) -> Seq<u8>;

/// The key that belongs to a password, given as its UTF-8 bytes, and a
/// salt: Argon2id at this library's fixed cost parameters.
pub open spec fn derived_key(password: Seq<u8>, salt: Seq<u8>) -> Seq<u8> {
    argon2id(password, salt, MEMORY_COST, TIME_COST, PARALLELISM, KEY_LEN as nat)
}

/// The inputs that Argon2 accepts: a password of at most 2^32 - 1 bytes and
/// a salt of 8 to 2^32 - 1 bytes.
pub open spec fn derivable(password: Seq<u8>, salt: Seq<u8>) -> bool {
    password.len() <= MAX_INPUT_LEN && MIN_SALT_LEN <= salt.len() <= MAX_INPUT_LEN
}

/// UTF-8 spends at most four bytes on a character, so a password of up to
/// 2^30 characters is always short enough to derive a key from.
pub proof fn password_bytes_bounded(password: Seq<char>)
    ensures
        encode_utf8(password).len() <= 4 * password.len(),
    decreases password.len(),
{
    if password.len() > 0 {
        password_bytes_bounded(password.drop_first());
    }
}

/// Runs Argon2id, version 0x13, through `argon2::Params::new`,
/// `argon2::Argon2::new` and `argon2::Argon2::hash_password_into`, and
/// returns the 32 bytes it wrote.
///
/// The preconditions are the crate's own checks on parameters and inputs:
/// at least 8 KiB of memory for each lane, at least one pass, 1 to 2^24 - 1
/// lanes, a password of at most 2^32 - 1 bytes, a salt of 8 to 2^32 - 1
/// bytes. Under them neither call returns an error. The result is taken
/// to depend on the arguments alone, which is what `argon2id` names.
#[verifier::external_body]
fn argon2id_hash(
    password: &[u8],
    salt: &[u8],
    m_cost: u32,
    t_cost: u32,
    p_cost: u32,
) -> (key: [u8; 32])
    requires
        1 <= p_cost <= 0xFF_FFFF,
        m_cost >= 8 * p_cost,
        t_cost >= 1,
        derivable(password@, salt@),
    ensures
        key@ == argon2id(password@, salt@, m_cost, t_cost, p_cost, 32),
{
    let mut key = [0u8; 32];
    let params = Params::new(m_cost, t_cost, p_cost, Some(key.len())).expect(
        "Invalid Argon2 params",
    );
    Argon2::new(Algorithm::Argon2id, Version::V0x13, params).hash_password_into(
        password,
        salt,
        &mut key,
    ).expect("KDF failed");
    key
}

/// Derives the 256-bit key that belongs to a password and a salt.
///
/// The same password and salt always give the same key; that is what lets
/// a container be opened again. The derivation is memory-hard on purpose
/// and blocks while it runs.
pub fn derive_key(password: &str, salt: &[u8]) -> (key: [u8; 32])
    requires
        derivable(encode_utf8(password@), salt@),
    ensures
        key@ == derived_key(encode_utf8(password@), salt@),
{
    argon2id_hash(password.as_bytes(), salt, MEMORY_COST, TIME_COST, PARALLELISM)
}

/// Key derivation is a function: equal passwords and equal salts have
/// equal keys.
pub proof fn derived_key_deterministic(
    password_a: Seq<u8>,
    salt_a: Seq<u8>,
    password_b: Seq<u8>,
    salt_b: Seq<u8>,
)
    requires
        password_a =~= password_b,
        salt_a =~= salt_b,
    ensures
        derived_key(password_a, salt_a) == derived_key(password_b, salt_b),
{
}

/// A fresh salt from the operating system's secure random source.
///
/// Draw one for every encryption; never reuse one, and never compute one
/// from anything else.
pub fn generate_salt() -> (salt: [u8; SALT_LEN]) {
    os_random::<16>()
}

} // verus!
