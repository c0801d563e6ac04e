//! Lower-case hexadecimal rendering of raw bytes.

use vstd::prelude::*;
use crate::ascii::all_ascii;

verus! {

/// The ASCII code of the lower-case hexadecimal digit for a nibble.
pub open spec fn hex_digit(nibble: u8) -> u8
    recommends
        nibble < 16,
{
    if nibble < 10 {
        (0x30 + nibble) as u8
    } else {
        (0x61 + (nibble - 10)) as u8
    }
}

/// Lower-case hexadecimal encoding: two digits for each byte, the high
/// nibble first, with nothing in between.
pub open spec fn hex_lower(bytes: Seq<u8>) -> Seq<u8> {
    Seq::new(
        2 * bytes.len(),
        |i: int|
            if i % 2 == 0 {
                hex_digit(bytes[i / 2] / 16)
            } else {
                hex_digit(bytes[i / 2] % 16)
            },
    )
}

/// Calls `subtle_encoding::hex::encode`, which encodes the given data as
/// lower-case hexadecimal: digits `0`-`9` and `a`-`f`, two for each byte, the
/// high nibble first.
#[verifier::external_body]
pub(crate) fn hex_encode(bytes: &[u8]) -> (encoded: Vec<u8>)
    ensures
        encoded@ == hex_lower(bytes@),
{
    subtle_encoding::hex::encode(bytes)
}

/// Every hexadecimal digit is an ASCII code.
pub proof fn lemma_hex_lower_is_ascii(bytes: Seq<u8>)
    ensures
        hex_lower(bytes).len() == 2 * bytes.len(),
        all_ascii(hex_lower(bytes)),
{
}

} // verus!
