//! Stable sorting of transaction parts by public key.
//!
//! Inputs and outputs enter a transaction in a canonical order, so that its
//! hash does not depend on the order in which a wallet happened to add them.

use vstd::prelude::*;
use crate::keys::{key_order, CompressedRistrettoPublic, KeyOrder};

verus! {

/// A rule that orders the outputs of a transaction by their public keys.
pub trait TxOutputsOrdering {
    /// What `compare` returns.
    spec fn spec_compare(a: CompressedRistrettoPublic, b: CompressedRistrettoPublic) -> KeyOrder;

    /// How `a` stands to `b`.
    fn compare(a: &CompressedRistrettoPublic, b: &CompressedRistrettoPublic) -> (o: KeyOrder)
        ensures
            o == Self::spec_compare(*a, *b),
    ;
}

/// The order that transactions use: ascending by public key.
#[derive(Clone, Copy, Debug)]
pub struct DefaultTxOutputsOrdering;

impl TxOutputsOrdering for DefaultTxOutputsOrdering {
    open spec fn spec_compare(a: CompressedRistrettoPublic, b: CompressedRistrettoPublic)
        -> KeyOrder {
        key_order(a, b)
    }

    fn compare(a: &CompressedRistrettoPublic, b: &CompressedRistrettoPublic) -> (o: KeyOrder) {
        a.compare(b)
    }
}

/// Something that is sorted by a public key.
pub trait SortKeyed {
    /// Whether the value has a key at all.
    spec fn has_sort_key(&self) -> bool;

    /// The key that the value is sorted by.
    spec fn spec_sort_key(&self) -> CompressedRistrettoPublic;

    fn sort_key(&self) -> (k: CompressedRistrettoPublic)
        requires
            self.has_sort_key(),
        ensures
            k == self.spec_sort_key(),
    ;
}

/// Whether `O` puts `a` after `b`.
pub open spec fn comes_after<T: SortKeyed, O: TxOutputsOrdering>(a: T, b: T) -> bool {
    O::spec_compare(a.spec_sort_key(), b.spec_sort_key()) == KeyOrder::Greater
}

/// Where `x` enters `s`: before the first element that comes after it, at the
/// end if there is none.
pub open spec fn insertion_point<T: SortKeyed, O: TxOutputsOrdering>(s: Seq<T>, x: T) -> int
    decreases s.len(),
{
    if s.len() == 0 || comes_after::<T, O>(s[0], x) {
        0
    } else {
        1 + insertion_point::<T, O>(s.skip(1), x)
    }
}

/// `s` sorted by `O`, elements that `O` does not tell apart staying in the
/// order in which `s` holds them: each element in turn enters what came
/// before it at its insertion point.
pub open spec fn stable_sort<T: SortKeyed, O: TxOutputsOrdering>(s: Seq<T>) -> Seq<T>
    decreases s.len(),
{
    if s.len() == 0 {
        Seq::empty()
    } else {
        let sorted = stable_sort::<T, O>(s.drop_last());
        sorted.insert(insertion_point::<T, O>(sorted, s.last()), s.last())
    }
}

/// Ascending by key under the default order.
pub open spec fn is_sorted_by_key<T: SortKeyed>(s: Seq<T>) -> bool {
    forall|i: int, j: int|
        0 <= i < j < s.len() ==> s[i].spec_sort_key().number() <= s[j].spec_sort_key().number()
}

/// The insertion point lies within the sequence, nothing before it comes
/// after `x`, and the element at it, if any, does.
pub proof fn lemma_insertion_point_properties<T: SortKeyed, O: TxOutputsOrdering>(
    s: Seq<T>,
    x: T,
)
    ensures
        0 <= insertion_point::<T, O>(s, x) <= s.len(),
        forall|k: int|
            0 <= k < insertion_point::<T, O>(s, x) ==> !comes_after::<T, O>(#[trigger] s[k], x),
        insertion_point::<T, O>(s, x) < s.len() ==> comes_after::<T, O>(
            s[insertion_point::<T, O>(s, x)],
            x,
        ),
    decreases s.len(),
{
    if s.len() == 0 || comes_after::<T, O>(s[0], x) {
    } else {
        let rest = s.skip(1);
        lemma_insertion_point_properties::<T, O>(rest, x);
        let p = insertion_point::<T, O>(rest, x);
        assert forall|k: int| 0 <= k < p + 1 implies !comes_after::<T, O>(#[trigger] s[k], x) by {
            if k > 0 {
                assert(s[k] == rest[k - 1]);
            }
        }
        if p < rest.len() {
            assert(s[p + 1] == rest[p]);
        }
    }
}

/// The insertion point is the only index with those properties.
pub proof fn lemma_insertion_point_is_unique<T: SortKeyed, O: TxOutputsOrdering>(
    s: Seq<T>,
    x: T,
    j: int,
)
    requires
        0 <= j <= s.len(),
        forall|k: int| 0 <= k < j ==> !comes_after::<T, O>(#[trigger] s[k], x),
        j < s.len() ==> comes_after::<T, O>(s[j], x),
    ensures
        insertion_point::<T, O>(s, x) == j,
    decreases s.len(),
{
    if s.len() == 0 {
    } else if comes_after::<T, O>(s[0], x) {
        if j > 0 {
            assert(!comes_after::<T, O>(s[0], x));
        }
    } else {
        let rest = s.skip(1);
        assert forall|k: int| 0 <= k < j - 1 implies !comes_after::<T, O>(
            #[trigger] rest[k],
            x,
        ) by {
            assert(rest[k] == s[k + 1]);
        }
        if j - 1 < rest.len() {
            assert(rest[j - 1] == s[j]);
        }
        lemma_insertion_point_is_unique::<T, O>(rest, x, j - 1);
    }
}

/// Sorting keeps every element, each as often as it occurred.
pub proof fn lemma_stable_sort_is_permutation<T: SortKeyed, O: TxOutputsOrdering>(s: Seq<T>)
    ensures
        stable_sort::<T, O>(s).to_multiset() == s.to_multiset(),
        stable_sort::<T, O>(s).len() == s.len(),
    decreases s.len(),
{
    broadcast use vstd::seq_lib::to_multiset_insert, vstd::seq_lib::to_multiset_build;

    if s.len() == 0 {
        assert(stable_sort::<T, O>(s) =~= s);
    } else {
        let sorted = stable_sort::<T, O>(s.drop_last());
        lemma_stable_sort_is_permutation::<T, O>(s.drop_last());
        lemma_insertion_point_properties::<T, O>(sorted, s.last());
        assert(s =~= s.drop_last().push(s.last()));
    }
}

/// Every element of the sorted sequence is an element of the sequence
/// that was sorted.
pub proof fn lemma_stable_sort_keeps_elements<T: SortKeyed, O: TxOutputsOrdering>(
    s: Seq<T>,
    i: int,
)
    requires
        0 <= i < s.len(),
    ensures
        stable_sort::<T, O>(s).len() == s.len(),
        s.contains(stable_sort::<T, O>(s)[i]),
{
    lemma_stable_sort_is_permutation::<T, O>(s);
    let r = stable_sort::<T, O>(s);
    assert(r.contains(r[i]));
    vstd::seq_lib::to_multiset_contains(r, r[i]);
    vstd::seq_lib::to_multiset_contains(s, r[i]);
}

/// Under the default order the sorted sequence ascends by key.
pub proof fn lemma_stable_sort_is_sorted<T: SortKeyed>(s: Seq<T>)
    ensures
        is_sorted_by_key(stable_sort::<T, DefaultTxOutputsOrdering>(s)),
    decreases s.len(),
{
    if s.len() > 0 {
        let sorted = stable_sort::<T, DefaultTxOutputsOrdering>(s.drop_last());
        let x = s.last();
        let p = insertion_point::<T, DefaultTxOutputsOrdering>(sorted, x);
        let r = sorted.insert(p, x);
        lemma_stable_sort_is_sorted::<T>(s.drop_last());
        lemma_insertion_point_properties::<T, DefaultTxOutputsOrdering>(sorted, x);
        assert forall|i: int, j: int| 0 <= i < j < r.len() implies r[i].spec_sort_key().number()
            <= r[j].spec_sort_key().number() by {
            if j < p {
                assert(r[i] == sorted[i] && r[j] == sorted[j]);
            } else if j == p {
                assert(r[i] == sorted[i]);
                assert(!comes_after::<T, DefaultTxOutputsOrdering>(sorted[i], x));
            } else if i < p {
                assert(r[i] == sorted[i] && r[j] == sorted[j - 1]);
            } else if i == p {
                assert(r[j] == sorted[j - 1]);
                assert(comes_after::<T, DefaultTxOutputsOrdering>(sorted[p], x));
            } else {
                assert(r[i] == sorted[i - 1] && r[j] == sorted[j - 1]);
            }
        }
    }
}

/// Sorts `v` in place by `O`, stably.
pub fn sort_by_key<T: SortKeyed, O: TxOutputsOrdering>(v: &mut Vec<T>)
    requires
        forall|i: int| 0 <= i < old(v)@.len() ==> (#[trigger] old(v)@[i]).has_sort_key(),
    ensures
        final(v)@ == stable_sort::<T, O>(old(v)@),
{
    let n: usize = v.len();
    let mut i: usize = 0;
    while i < n
        invariant
            0 <= i <= n,
            n == old(v)@.len(),
            v@.len() == n,
            v@.take(i as int) == stable_sort::<T, O>(old(v)@.take(i as int)),
            v@.skip(i as int) == old(v)@.skip(i as int),
            forall|m: int| 0 <= m < v@.len() ==> (#[trigger] v@[m]).has_sort_key(),
        decreases n - i,
    {
        let ghost before = v@;
        let ghost sorted = before.take(i as int);
        assert(before[i as int] == before.skip(i as int)[0]);
        assert(old(v)@[i as int] == old(v)@.skip(i as int)[0]);
        let x: T = v.remove(i);
        let key: CompressedRistrettoPublic = x.sort_key();
        let mut j: usize = 0;
        let mut found: bool = false;
        while j < i && !found
            invariant
                0 <= j <= i,
                i < n,
                v@ == before.remove(i as int),
                before.len() == n,
                key == x.spec_sort_key(),
                forall|m: int| 0 <= m < before.len() ==> (#[trigger] before[m]).has_sort_key(),
                forall|m: int| 0 <= m < j ==> !comes_after::<T, O>(#[trigger] v@[m], x),
                found ==> j < i && comes_after::<T, O>(v@[j as int], x),
            decreases i - j, if found { 0int } else { 1int },
        {
            assert(v@[j as int] == before[j as int]);
            let other: CompressedRistrettoPublic = v[j].sort_key();
            match O::compare(&other, &key) {
                KeyOrder::Greater => {
                    found = true;
                },
                _ => {
                    j += 1;
                },
            }
        }
        v.insert(j, x);
        proof {
            let after = v@;
            assert(before.remove(i as int).take(i as int) =~= sorted);
            assert forall|m: int| 0 <= m < j implies !comes_after::<T, O>(
                #[trigger] sorted[m],
                x,
            ) by {
                assert(sorted[m] == before.remove(i as int)[m]);
            }
            if j < i {
                assert(sorted[j as int] == before.remove(i as int)[j as int]);
            }
            lemma_insertion_point_is_unique::<T, O>(sorted, x, j as int);
            let grown = old(v)@.take(i + 1);
            assert(grown.drop_last() =~= old(v)@.take(i as int));
            assert(grown.last() == x);
            assert(after.take(i + 1) =~= sorted.insert(j as int, x));
            assert(after.skip(i + 1) =~= old(v)@.skip(i + 1)) by {
                let tail = after.skip(i + 1);
                let wanted = old(v)@.skip(i + 1);
                assert forall|m: int| 0 <= m < n - i - 1 implies #[trigger] tail[m] == wanted[m] by {
                    assert(after[m + i + 1] == before[m + i + 1]);
                    assert(before[m + i + 1] == before.skip(i as int)[m + 1]);
                    assert(old(v)@[m + i + 1] == old(v)@.skip(i as int)[m + 1]);
                }
            }
            assert forall|m: int| 0 <= m < after.len() implies (#[trigger] after[m]).has_sort_key() by {
                if m < j {
                    assert(after[m] == before[m]);
                } else if m == j {
                    assert(after[m] == before[i as int]);
                } else if m <= i {
                    assert(after[m] == before[m - 1]);
                } else {
                    assert(after[m] == before[m]);
                }
            }
        }
        i += 1;
    }
    proof {
        assert(v@.take(n as int) =~= v@);
        assert(old(v)@.take(n as int) =~= old(v)@);
    }
}

} // verus!
