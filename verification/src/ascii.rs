//! Text made of ASCII codes.

use vstd::prelude::*;

verus! {

/// The text whose characters have the given ASCII codes.
pub open spec fn ascii_text(codes: Seq<u8>) -> Seq<char> {
    Seq::new(codes.len(), |i: int| codes[i] as char)
}

/// True when every byte is an ASCII code.
pub open spec fn all_ascii(codes: Seq<u8>) -> bool {
    forall|i: int| 0 <= i < codes.len() ==> codes[i] < 128
}

/// The error with which std refuses bytes that are not UTF-8.
#[verifier::external_type_specification]
#[verifier::external_body]
pub struct ExFromUtf8Error(std::string::FromUtf8Error);

/// Calls `String::from_utf8`, which accepts exactly the byte vectors that are
/// valid UTF-8. The contract speaks of ASCII only: such bytes are always
/// accepted, and each becomes the character with the same code.
#[verifier::external_body]
pub(crate) fn string_from_utf8(bytes: Vec<u8>) -> (result: Result<String, std::string::FromUtf8Error>)
    ensures
        all_ascii(bytes@) ==> result is Ok && result->Ok_0@ == ascii_text(bytes@),
{
    String::from_utf8(bytes)
}

} // verus!
