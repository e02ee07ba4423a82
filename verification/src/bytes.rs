//! Comparing and ordering fixed-size byte strings.

use vstd::prelude::*;

verus! {

/// Whether two byte strings of one size hold the same bytes.
pub fn bytes_equal<const N: usize>(a: &[u8; N], b: &[u8; N]) -> (same: bool)
    ensures
        same == (*a == *b),
{
    let mut i: usize = 0;
    while i < N
        invariant
            0 <= i <= N,
            forall|j: int| 0 <= j < i ==> a@[j] == b@[j],
        decreases N - i,
    {
        if a[i] != b[i] {
            assert(a@[i as int] != b@[i as int]);
            return false;
        }
        i += 1;
    }
    assert(*a =~= *b);
    true
}

/// How one byte string stands to another of its size.
#[derive(Clone, Copy, Debug, PartialEq, Eq, Structural)]
pub enum ByteOrder {
    Less,
    Equal,
    Greater,
}

/// The number that a byte string writes in base 256, most significant byte
/// first. Strings of one length are ordered lexicographically exactly as
/// their numbers are ordered.
pub open spec fn big_endian(s: Seq<u8>) -> nat
    decreases s.len(),
{
    if s.len() == 0 {
        0
    } else {
        big_endian(s.drop_last()) * 256 + s.last() as nat
    }
}

/// Two strings of one length that first differ at `k`, where the first holds
/// the smaller byte, write numbers in that order.
pub proof fn lemma_first_difference_decides(a: Seq<u8>, b: Seq<u8>, k: int)
    requires
        a.len() == b.len(),
        0 <= k < a.len(),
        forall|j: int| 0 <= j < k ==> a[j] == b[j],
        a[k] < b[k],
    ensures
        big_endian(a) < big_endian(b),
    decreases a.len(),
{
    if k == a.len() - 1 {
        assert(a.drop_last() =~= b.drop_last());
    } else {
        lemma_first_difference_decides(a.drop_last(), b.drop_last(), k);
    }
}

/// Strings of one length that write the same number are the same string.
pub proof fn lemma_big_endian_is_injective(a: Seq<u8>, b: Seq<u8>)
    requires
        a.len() == b.len(),
        big_endian(a) == big_endian(b),
    ensures
        a == b,
    decreases a.len(),
{
    if a.len() > 0 {
        lemma_big_endian_is_injective(a.drop_last(), b.drop_last());
        assert(a =~= a.drop_last().push(a.last()));
        assert(b =~= b.drop_last().push(b.last()));
    } else {
        assert(a =~= b);
    }
}

/// The order of two byte strings of one size: that of the numbers which
/// they write, which is their lexicographic order.
pub open spec fn byte_order(a: Seq<u8>, b: Seq<u8>) -> ByteOrder {
    if big_endian(a) < big_endian(b) {
        ByteOrder::Less
    } else if big_endian(a) == big_endian(b) {
        ByteOrder::Equal
    } else {
        ByteOrder::Greater
    }
}

/// Compares two byte strings of one size byte by byte, first byte first.
pub fn compare_bytes<const N: usize>(a: &[u8; N], b: &[u8; N]) -> (o: ByteOrder)
    ensures
        o == byte_order(a@, b@),
        (o == ByteOrder::Equal) == (*a == *b),
{
    let mut i: usize = 0;
    while i < N
        invariant
            0 <= i <= N,
            forall|j: int| 0 <= j < i ==> a@[j] == b@[j],
        decreases N - i,
    {
        let x: u8 = a[i];
        let y: u8 = b[i];
        if x < y {
            proof {
                lemma_first_difference_decides(a@, b@, i as int);
                assert(a@[i as int] != b@[i as int]);
            }
            return ByteOrder::Less;
        }
        if x > y {
            proof {
                lemma_first_difference_decides(b@, a@, i as int);
                assert(a@[i as int] != b@[i as int]);
            }
            return ByteOrder::Greater;
        }
        i += 1;
    }
    proof {
        assert(a@ =~= b@);
        assert(*a =~= *b);
    }
    ByteOrder::Equal
}

} // verus!
