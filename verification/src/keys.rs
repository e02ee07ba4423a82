//! Compressed public keys and the order in which transactions list them.

use vstd::prelude::*;
use crate::bytes::{big_endian, compare_bytes, lemma_big_endian_is_injective, ByteOrder};

verus! {

/// How one key stands to another.
#[derive(Clone, Copy, Debug, PartialEq, Eq, Structural)]
pub enum KeyOrder {
    Less,
    Equal,
    Greater,
}

/// A Ristretto public key in its 32-byte compressed encoding.
#[derive(Clone, Copy, Debug, PartialEq, Eq, PartialOrd, Ord, Hash)]
pub struct CompressedRistrettoPublic {
    pub bytes: [u8; 32],
}

/// The order of two keys: that of the numbers which their bytes write, which
/// is the lexicographic order of the bytes.
pub open spec fn key_order(a: CompressedRistrettoPublic, b: CompressedRistrettoPublic)
    -> KeyOrder {
    if a.number() < b.number() {
        KeyOrder::Less
    } else if a.number() == b.number() {
        KeyOrder::Equal
    } else {
        KeyOrder::Greater
    }
}

impl CompressedRistrettoPublic {
    pub open spec fn number(self) -> nat {
        big_endian(self.bytes@)
    }

    pub fn new(bytes: [u8; 32]) -> (k: CompressedRistrettoPublic)
        ensures
            k.bytes == bytes,
    {
        CompressedRistrettoPublic { bytes }
    }

    /// Compares two keys byte by byte, first byte first.
    pub fn compare(&self, other: &CompressedRistrettoPublic) -> (o: KeyOrder)
        ensures
            o == key_order(*self, *other),
            (o == KeyOrder::Equal) == (*self == *other),
    {
        match compare_bytes(&self.bytes, &other.bytes) {
            ByteOrder::Less => KeyOrder::Less,
            ByteOrder::Equal => KeyOrder::Equal,
            ByteOrder::Greater => KeyOrder::Greater,
        }
    }

    /// Whether two keys hold the same bytes.
    pub fn same(&self, other: &CompressedRistrettoPublic) -> (b: bool)
        ensures
            b == (*self == *other),
    {
        match self.compare(other) {
            KeyOrder::Equal => true,
            _ => false,
        }
    }
}

/// Keys are totally ordered: two distinct keys are never `Equal`, swapping
/// the arguments swaps `Less` and `Greater`, and `Less` chains.
pub proof fn lemma_key_order_is_total(
    a: CompressedRistrettoPublic,
    b: CompressedRistrettoPublic,
    c: CompressedRistrettoPublic,
)
    ensures
        (key_order(a, b) == KeyOrder::Equal) == (a == b),
        (key_order(a, b) == KeyOrder::Less) == (key_order(b, a) == KeyOrder::Greater),
        key_order(a, b) != KeyOrder::Greater && key_order(b, c) != KeyOrder::Greater
            ==> key_order(a, c) != KeyOrder::Greater,
{
    if a.number() == b.number() {
        lemma_big_endian_is_injective(a.bytes@, b.bytes@);
        assert(a.bytes =~= b.bytes);
    }
}

} // verus!
