//! Bytes in hexadecimal, as the hex crate writes them.

use vstd::prelude::*;

verus! {

/// The hexadecimal digit of a number below sixteen, in lower case.
pub open spec fn hex_digit(n: int) -> char {
    if n < 10 {
        ((48 + n) as u8) as char
    } else {
        ((87 + n) as u8) as char
    }
}

/// Bytes in hexadecimal: two digits for each, the high one first.
pub open spec fn hex_string(bytes: Seq<u8>) -> Seq<char> {
    Seq::new(
        2 * bytes.len(),
        |i: int|
            if i % 2 == 0 {
                hex_digit(bytes[i / 2] as int / 16)
            } else {
                hex_digit(bytes[i / 2] as int % 16)
            },
    )
}

/// Calls `hex::encode`, which writes each byte as two lower-case
/// hexadecimal digits, the high one first.
#[verifier::external_body]
pub(crate) fn hex_encode(bytes: &[u8; 32]) -> (s: String)
    ensures
        s@ == hex_string(bytes@),
{
    hex::encode(bytes)
}

} // verus!
