//! The operating system's secure random source.

use rand::rngs::OsRng;
use rand::RngCore;
use vstd::prelude::*;

verus! {

/// `N` fresh bytes from the operating system's cryptographically secure
/// random source, drawn with `RngCore::fill_bytes` on `rand::rngs::OsRng`.
///
/// Nothing is claimed of the bytes: two calls are unrelated as far as any
/// proof goes. `fill_bytes` panics where the operating system cannot supply
/// randomness at all.
#[verifier::external_body]
pub(crate) fn os_random<const N: usize>() -> (bytes: [u8; N]) {
    let mut bytes = [0u8; N];
    OsRng.fill_bytes(&mut bytes);
    bytes
}

} // verus!
