//! The operating system's entropy source.

use vstd::prelude::*;

verus! {

/// The error type of the entropy source.
#[verifier::external_type_specification]
#[verifier::external_body]
pub struct ExEntropyError(getrandom::Error);

/// Calls `getrandom::getrandom` once on a fresh 14-byte buffer and returns the
/// buffer, or the entropy source's error. Nothing is claimed of the bytes.
#[verifier::external_body]
pub(crate) fn draw_entropy() -> (drawn: Result<[u8; 14], getrandom::Error>) {
    let mut id = [0u8; 14];
    getrandom::getrandom(&mut id).map(|_| id)
}

} // verus!
