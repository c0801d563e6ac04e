//! The exchange with the token's object store, as seen from the library.
//!
//! The token offers one logical channel. Every read or write of an object
//! happens inside a transaction that holds the device exclusively:
//! `Idle -> Active -> {Committed, Aborted}`. The library does no I/O. It
//! decides: the caller performs what the library asks for and reports back
//! what the device answered.

use vstd::prelude::*;
use crate::error::{CccError, TransportError};

verus! {

/// Where a transaction stands.
#[derive(Copy, Clone, Debug, PartialEq, Eq, Structural)]
pub enum Phase {
    /// Exclusive access has not been acquired yet.
    Idle,
    /// The device is held; objects may be fetched and saved.
    Active,
    /// The exchange succeeded and the device was released.
    Committed,
    /// The exchange failed and the device was released.
    Aborted,
}

/// What the device answered to the last thing asked of it.
#[derive(Debug, PartialEq, Eq)]
pub enum Event {
    /// Outcome of `begin_transaction`.
    Began(Result<(), TransportError>),
    /// Outcome of `fetch_object`: the object's raw bytes.
    Fetched(Result<Vec<u8>, TransportError>),
    /// Outcome of `save_object`.
    Saved(Result<(), TransportError>),
}

/// What the caller has to do next.
#[derive(Debug, PartialEq, Eq)]
pub enum Action<T> {
    /// Fetch the object with this identifier inside the open transaction.
    FetchObject { object_id: u32 },
    /// Save these bytes under this identifier inside the open transaction.
    SaveObject { object_id: u32, data: Vec<u8> },
    /// Release the device; the exchange is over with this result.
    Release(Result<T, CccError>),
}

/// The scope of one exchange. Its phase can only be advanced by the
/// operations of this library, one device answer at a time.
#[derive(Debug)]
pub struct Transaction {
    phase: Phase,
}

impl Transaction {
    /// The phase this transaction is in.
    pub closed spec fn phase(&self) -> Phase {
        self.phase
    }

    /// A transaction that has not begun.
    pub fn new() -> (txn: Transaction)
        ensures
            txn.phase() == Phase::Idle,
    {
        Transaction { phase: Phase::Idle }
    }

    /// The phase this transaction is in.
    pub fn current(&self) -> (phase: Phase)
        ensures
            phase == self.phase(),
    {
        self.phase
    }

    /// True once the device has been released, whatever the outcome.
    pub fn is_released(&self) -> (released: bool)
        ensures
            released == (self.phase() == Phase::Committed || self.phase() == Phase::Aborted),
    {
        match self.phase {
            Phase::Committed => true,
            Phase::Aborted => true,
            _ => false,
        }
    }

    pub(crate) fn advance(&mut self, next: Phase)
        ensures
            final(self).phase() == next,
    {
        self.phase = next;
    }
}

} // verus!
