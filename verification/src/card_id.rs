//! The 14-byte card identifier.

use vstd::prelude::*;
use crate::entropy::draw_entropy;
use crate::error::CccError;

verus! {

/// Size of a card identifier in bytes.
pub const CCCID_SIZE: usize = 14;

/// Card identifier held inside a Cardholder Capability Container. It has no
/// structure of its own: two identifiers are the same when their bytes are.
#[derive(Copy, Clone, Debug, Eq, PartialEq)]
pub struct CardId(pub [u8; CCCID_SIZE]);

impl View for CardId {
    type V = Seq<u8>;

    open spec fn view(&self) -> Seq<u8> {
        self.0@
    }
}

impl CardId {
    /// What a single draw from the entropy source becomes: the identifier
    /// made of the drawn bytes, or `RandomnessError` when the draw failed.
    pub fn from_entropy(drawn: Result<[u8; CCCID_SIZE], getrandom::Error>) -> (result: Result<CardId, CccError>)
        ensures
            drawn is Ok ==> result == Ok::<CardId, CccError>(CardId(drawn->Ok_0)),
            drawn is Err ==> result == Err::<CardId, CccError>(CccError::RandomnessError),
    {
        match drawn {
            Ok(id) => Ok(CardId(id)),
            Err(_) => Err(CccError::RandomnessError),
        }
    }

    /// Generates a random card identifier from one draw of 14 bytes. A failed
    /// draw is final: it is reported as `RandomnessError` and not tried again.
    pub fn generate() -> (result: Result<CardId, CccError>)
        ensures
            result is Ok ==> result->Ok_0@.len() == CCCID_SIZE,
            result is Err ==> result->Err_0 == CccError::RandomnessError,
    {
        CardId::from_entropy(draw_entropy())
    }
}

} // verus!
