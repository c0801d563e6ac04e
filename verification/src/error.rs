//! Error types.

use vstd::prelude::*;

verus! {

/// A failure reported by the device driver while it began a transaction or
/// fetched or saved an object. The library never inspects the code: it hands
/// the value on to the caller as it came.
#[derive(Copy, Clone, Debug, PartialEq, Eq, Structural)]
pub struct TransportError {
    /// The driver's status code.
    pub code: u32,
}

/// Everything that can go wrong with a card identifier or a container.
#[derive(Copy, Clone, Debug, PartialEq, Eq, Structural)]
pub enum CccError {
    /// The entropy source could not supply random bytes.
    RandomnessError,
    /// The token answered with something that is not a container.
    GenericError,
    /// The device driver failed; its error is carried unchanged.
    Transport(TransportError),
}

} // verus!
