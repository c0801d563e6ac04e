//! Cardholder Capability Container (CCC) support for PIV tokens: the card
//! identifier, the fixed 51-byte container layout, and the decisions of the
//! transaction-scoped exchange with the token's object store.

pub mod ascii;
pub mod card_id;
pub mod container;
pub mod entropy;
pub mod error;
pub mod hex;
pub mod laws;
pub mod readers;
pub mod transaction;
