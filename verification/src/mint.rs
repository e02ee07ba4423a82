//! Joining the signatures that several signers gave to one minting
//! transaction.
//!
//! Each signer hands in the same transaction, signed by them. The
//! transaction that is submitted holds every signature once, in ascending
//! order.

use vstd::prelude::*;
use crate::bytes::{big_endian, compare_bytes, lemma_big_endian_is_injective, ByteOrder};

verus! {

/// An Ed25519 signature.
#[derive(Clone, Copy, Debug, PartialEq, Eq, PartialOrd, Ord)]
pub struct Ed25519Signature {
    pub bytes: [u8; 64],
}

impl Ed25519Signature {
    /// The number that orders the signature among others.
    pub open spec fn number(self) -> nat {
        big_endian(self.bytes@)
    }
}

/// Whether each signature is smaller than the one after it.
pub open spec fn is_strictly_ascending(s: Seq<Ed25519Signature>) -> bool {
    forall|i: int, j: int| 0 <= i < j < s.len() ==> s[i].number() < s[j].number()
}

/// Whether a signature is among the first `b` of set `a` or in a set
/// before it.
pub open spec fn occurs_before(
    sets: Seq<Vec<Ed25519Signature>>,
    a: int,
    b: int,
    signature: Ed25519Signature,
) -> bool {
    exists|i: int, j: int|
        0 <= i < sets.len() && 0 <= j < sets[i]@.len() && (i < a || (i == a && j < b))
            && #[trigger] sets[i]@[j] == signature
}

/// Whether a signature is in one of the sets.
pub open spec fn occurs_in(sets: Seq<Vec<Ed25519Signature>>, signature: Ed25519Signature) -> bool {
    occurs_before(sets, sets.len() as int, 0, signature)
}

/// Signatures that write one number are one signature.
pub proof fn lemma_signature_is_known_by_its_number(a: Ed25519Signature, b: Ed25519Signature)
    requires
        a.number() == b.number(),
    ensures
        a == b,
{
    lemma_big_endian_is_injective(a.bytes@, b.bytes@);
    assert(a.bytes =~= b.bytes);
}

/// Two strictly ascending lists of the same signatures are the same list.
pub proof fn lemma_ascending_list_is_unique(s: Seq<Ed25519Signature>, t: Seq<Ed25519Signature>)
    requires
        is_strictly_ascending(s),
        is_strictly_ascending(t),
        forall|x: Ed25519Signature| s.contains(x) <==> t.contains(x),
    ensures
        s == t,
    decreases s.len(),
{
    if s.len() == 0 {
        if t.len() > 0 {
            assert(t.contains(t[0]));
        }
        assert(s =~= t);
    } else {
        let top = s.last();
        assert(s.contains(top));
        let at = choose|at: int| 0 <= at < t.len() && t[at] == top;
        // Nothing in `t` lies above `top`.
        if at < t.len() - 1 {
            let above = t[t.len() - 1];
            assert(t.contains(above));
            let back = choose|back: int| 0 <= back < s.len() && s[back] == above;
            assert(s[back].number() <= top.number());
            assert(t[at].number() < above.number());
        }
        let s0 = s.drop_last();
        let t0 = t.drop_last();
        assert forall|x: Ed25519Signature| s0.contains(x) <==> t0.contains(x) by {
            if s0.contains(x) {
                let i = choose|i: int| 0 <= i < s0.len() && s0[i] == x;
                assert(s[i] == x);
                assert(s.contains(x));
                let j = choose|j: int| 0 <= j < t.len() && t[j] == x;
                assert(s[i].number() < top.number());
                assert(t0[j] == x);
            }
            if t0.contains(x) {
                let j = choose|j: int| 0 <= j < t0.len() && t0[j] == x;
                assert(t[j] == x);
                assert(t.contains(x));
                let i = choose|i: int| 0 <= i < s.len() && s[i] == x;
                assert(t[j].number() < top.number());
                assert(s0[i] == x);
            }
        }
        lemma_ascending_list_is_unique(s0, t0);
        assert(s =~= s0.push(top));
        assert(t =~= t0.push(top));
    }
}

/// Puts a signature in its place in an ascending list, unless the list
/// holds it already.
fn insert_unique(list: &mut Vec<Ed25519Signature>, signature: Ed25519Signature)
    requires
        is_strictly_ascending(old(list)@),
    ensures
        is_strictly_ascending(final(list)@),
        forall|x: Ed25519Signature|
            final(list)@.contains(x) <==> (old(list)@.contains(x) || x == signature),
{
    let ghost before = list@;
    let n: usize = list.len();
    let mut i: usize = 0;
    let mut stop: bool = false;
    while i < n && !stop
        invariant
            0 <= i <= n,
            n == before.len(),
            list@ == before,
            is_strictly_ascending(before),
            forall|k: int| 0 <= k < i ==> before[k].number() < signature.number(),
            stop ==> i < n && signature.number() < before[i as int].number(),
        decreases n - i, if stop { 0int } else { 1int },
    {
        match compare_bytes(&list[i].bytes, &signature.bytes) {
            ByteOrder::Less => {
                i += 1;
            },
            ByteOrder::Equal => {
                proof {
                    assert(before[i as int] == signature);
                    assert(before.contains(signature));
                }
                return ;
            },
            ByteOrder::Greater => {
                stop = true;
            },
        }
    }
    list.insert(i, signature);
    proof {
        let after = list@;
        assert forall|a: int, b: int| 0 <= a < b < after.len() implies after[a].number()
            < after[b].number() by {
            if b < i {
                assert(after[a] == before[a] && after[b] == before[b]);
            } else if b == i {
                assert(after[a] == before[a]);
            } else if a < i {
                assert(after[a] == before[a] && after[b] == before[b - 1]);
            } else if a == i {
                assert(after[b] == before[b - 1]);
            } else {
                assert(after[a] == before[a - 1] && after[b] == before[b - 1]);
            }
        }
        assert forall|x: Ed25519Signature| after.contains(x) <==> (before.contains(x) || x
            == signature) by {
            if after.contains(x) {
                let k = choose|k: int| 0 <= k < after.len() && after[k] == x;
                if k < i {
                    assert(before[k] == x);
                } else if k > i {
                    assert(before[k - 1] == x);
                }
            }
            if before.contains(x) {
                let k = choose|k: int| 0 <= k < before.len() && before[k] == x;
                if k < i {
                    assert(after[k] == x);
                } else {
                    assert(after[k + 1] == x);
                }
            }
            if x == signature {
                assert(after[i as int] == x);
            }
        }
    }
}

/// All signatures of all sets, each once, in ascending order.
pub fn merge_signatures(sets: &Vec<Vec<Ed25519Signature>>) -> (merged: Vec<Ed25519Signature>)
    ensures
        is_strictly_ascending(merged@),
        forall|x: Ed25519Signature| merged@.contains(x) <==> occurs_in(sets@, x),
{
    let mut merged: Vec<Ed25519Signature> = Vec::new();
    let mut a: usize = 0;
    while a < sets.len()
        invariant
            0 <= a <= sets@.len(),
            is_strictly_ascending(merged@),
            forall|x: Ed25519Signature| merged@.contains(x) <==> occurs_before(sets@, a as int, 0, x),
        decreases sets@.len() - a,
    {
        let mut b: usize = 0;
        while b < sets[a].len()
            invariant
                0 <= a < sets@.len(),
                0 <= b <= sets@[a as int]@.len(),
                is_strictly_ascending(merged@),
                forall|x: Ed25519Signature|
                    merged@.contains(x) <==> occurs_before(sets@, a as int, b as int, x),
            decreases sets@[a as int]@.len() - b,
        {
            let signature: Ed25519Signature = sets[a][b];
            let ghost held = merged@;
            insert_unique(&mut merged, signature);
            proof {
                assert forall|x: Ed25519Signature| merged@.contains(x) <==> occurs_before(
                    sets@,
                    a as int,
                    b + 1,
                    x,
                ) by {
                    if occurs_before(sets@, a as int, b + 1, x) {
                        let (i, j) = choose|i: int, j: int|
                            0 <= i < sets@.len() && 0 <= j < sets@[i]@.len() && (i < a || (i == a
                                && j < b + 1)) && #[trigger] sets@[i]@[j] == x;
                        if i == a && j == b {
                        } else {
                            assert(occurs_before(sets@, a as int, b as int, x));
                        }
                    }
                    if held.contains(x) {
                        let (i, j) = choose|i: int, j: int|
                            0 <= i < sets@.len() && 0 <= j < sets@[i]@.len() && (i < a || (i == a
                                && j < b)) && #[trigger] sets@[i]@[j] == x;
                        assert(occurs_before(sets@, a as int, b + 1, x));
                    }
                    if x == signature {
                        assert(sets@[a as int]@[b as int] == x);
                        assert(occurs_before(sets@, a as int, b + 1, x));
                    }
                }
            }
            b += 1;
        }
        proof {
            assert forall|x: Ed25519Signature| occurs_before(
                sets@,
                a as int,
                sets@[a as int]@.len() as int,
                x,
            ) <==> occurs_before(sets@, a + 1, 0, x) by {
                if occurs_before(sets@, a as int, sets@[a as int]@.len() as int, x) {
                    let (i, j) = choose|i: int, j: int|
                        0 <= i < sets@.len() && 0 <= j < sets@[i]@.len() && (i < a || (i == a && j
                            < sets@[a as int]@.len())) && #[trigger] sets@[i]@[j] == x;
                    assert(i < a + 1);
                }
                if occurs_before(sets@, a + 1, 0, x) {
                    let (i, j) = choose|i: int, j: int|
                        0 <= i < sets@.len() && 0 <= j < sets@[i]@.len() && (i < a + 1 || (i == a
                            + 1 && j < 0)) && #[trigger] sets@[i]@[j] == x;
                    assert(i < a || (i == a && j < sets@[a as int]@.len()));
                }
            }
        }
        a += 1;
    }
    merged
}

} // verus!
