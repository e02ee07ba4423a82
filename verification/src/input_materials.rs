//! What a transaction needs of each of its inputs.

use vstd::prelude::*;
use crate::amount::{Amount, TokenId};
use crate::keys::CompressedRistrettoPublic;
use crate::error::TxBuilderError;
use crate::ordering::{
    lemma_stable_sort_is_permutation, lemma_stable_sort_is_sorted, sort_by_key, stable_sort,
    DefaultTxOutputsOrdering, SortKeyed,
};
use crate::tx::{OutputSecret, TxIn, TxOut, TxOutMembershipProof, UnmaskedAmount};

verus! {

/// What spends an output: its one-time private key, and what opens its
/// commitment.
#[derive(Clone, Copy, Debug, PartialEq, Eq)]
pub struct InputSecret {
    pub onetime_private_key: [u8; 32],
    pub amount: Amount,
    pub blinding: [u8; 32],
}

/// An input that this transaction's signer will sign: a ring of outputs, a
/// membership proof for each, and the secrets of the one that is spent.
#[derive(Clone, Debug, PartialEq, Eq)]
pub struct InputCredentials {
    pub ring: Vec<TxOut>,
    pub membership_proofs: Vec<TxOutMembershipProof>,
    /// Where in the ring the spent output stands.
    pub real_index: usize,
    pub input_secret: InputSecret,
}

/// An input that another party signed beforehand, with the rules under which
/// it may be spent.
#[derive(Clone, Debug, PartialEq, Eq)]
pub struct SignedContingentInput {
    pub block_version: u32,
    pub tx_in: TxIn,
    /// The ring signature of the input, as its signer encoded it.
    pub mlsag: Vec<u8>,
    /// The amount of the input and the blinding of its pseudo-output.
    pub pseudo_output_amount: UnmaskedAmount,
    /// The amounts of the outputs that the rules require, in their order.
    pub required_output_amounts: Vec<UnmaskedAmount>,
    pub tx_out_global_indices: Vec<u64>,
}

/// One input of a transaction in the making.
#[derive(Clone, Debug, PartialEq, Eq)]
pub enum InputMaterials {
    Signable(InputCredentials),
    Presigned(SignedContingentInput),
}

impl UnmaskedAmount {
    pub open spec fn spec_amount(self) -> Amount {
        Amount { value: self.value, token_id: TokenId { id: self.token_id } }
    }

    /// The secret of an output with this amount.
    pub open spec fn spec_output_secret(self) -> OutputSecret {
        OutputSecret { amount: self.spec_amount(), blinding: self.blinding }
    }

    #[verifier::when_used_as_spec(spec_output_secret)]
    pub fn output_secret(self) -> (s: OutputSecret)
        ensures
            s == self.spec_output_secret(),
    {
        OutputSecret {
            amount: Amount { value: self.value, token_id: TokenId { id: self.token_id } },
            blinding: self.blinding,
        }
    }
}

impl InputMaterials {
    /// The ring of the input.
    pub open spec fn ring(&self) -> Seq<TxOut> {
        match self {
            InputMaterials::Signable(c) => c.ring@,
            InputMaterials::Presigned(s) => s.tx_in.ring@,
        }
    }

    /// How many membership proofs came with the input.
    pub open spec fn proof_count(&self) -> nat {
        match self {
            InputMaterials::Signable(c) => c.membership_proofs@.len(),
            InputMaterials::Presigned(s) => s.tx_in.proofs@.len(),
        }
    }

    pub open spec fn spec_amount(&self) -> Amount {
        match self {
            InputMaterials::Signable(c) => c.input_secret.amount,
            InputMaterials::Presigned(s) => s.pseudo_output_amount.spec_amount(),
        }
    }

    /// The amount that the input brings.
    #[verifier::when_used_as_spec(spec_amount)]
    pub fn amount(&self) -> (a: Amount)
        ensures
            a == self.spec_amount(),
    {
        match self {
            InputMaterials::Signable(c) => c.input_secret.amount,
            InputMaterials::Presigned(s) => Amount {
                value: s.pseudo_output_amount.value,
                token_id: TokenId { id: s.pseudo_output_amount.token_id },
            },
        }
    }

    /// The number of outputs in the input's ring.
    pub fn ring_size(&self) -> (n: usize)
        ensures
            n == self.ring().len(),
    {
        match self {
            InputMaterials::Signable(c) => c.ring.len(),
            InputMaterials::Presigned(s) => s.tx_in.ring.len(),
        }
    }

    /// The number of membership proofs of the input.
    pub fn proof_size(&self) -> (n: usize)
        ensures
            n == self.proof_count(),
    {
        match self {
            InputMaterials::Signable(c) => c.membership_proofs.len(),
            InputMaterials::Presigned(s) => s.tx_in.proofs.len(),
        }
    }

    pub fn is_presigned(&self) -> (b: bool)
        ensures
            b == (self is Presigned),
    {
        match self {
            InputMaterials::Signable(_) => false,
            InputMaterials::Presigned(_) => true,
        }
    }
}

/// Inputs are sorted by the public key of the first output of their ring.
impl SortKeyed for InputMaterials {
    open spec fn has_sort_key(&self) -> bool {
        self.ring().len() > 0
    }

    open spec fn spec_sort_key(&self) -> CompressedRistrettoPublic {
        self.ring()[0].public_key
    }

    fn sort_key(&self) -> (k: CompressedRistrettoPublic) {
        match self {
            InputMaterials::Signable(c) => c.ring[0].public_key,
            InputMaterials::Presigned(s) => s.tx_in.ring[0].public_key,
        }
    }
}

/// A member of a ring with the proof that it is in the ledger.
pub struct RingMember {
    pub tx_out: TxOut,
    pub membership_proof: TxOutMembershipProof,
}

/// Ring members are sorted by their public key.
impl SortKeyed for RingMember {
    open spec fn has_sort_key(&self) -> bool {
        true
    }

    open spec fn spec_sort_key(&self) -> CompressedRistrettoPublic {
        self.tx_out.public_key
    }

    fn sort_key(&self) -> (k: CompressedRistrettoPublic) {
        self.tx_out.public_key
    }
}

/// Each output of a ring with the proof at its place.
pub open spec fn ring_members(ring: Seq<TxOut>, proofs: Seq<TxOutMembershipProof>) -> Seq<
    RingMember,
> {
    Seq::new(ring.len(), |i: int| RingMember { tx_out: ring[i], membership_proof: proofs[i] })
}

/// A ring and its proofs sorted together by public key.
pub open spec fn sorted_ring_members(ring: Seq<TxOut>, proofs: Seq<TxOutMembershipProof>) -> Seq<
    RingMember,
> {
    stable_sort::<RingMember, DefaultTxOutputsOrdering>(ring_members(ring, proofs))
}

/// Whether a ring ascends by public key.
pub open spec fn ring_is_sorted(ring: Seq<TxOut>) -> bool {
    forall|i: int, j: int|
        0 <= i < j < ring.len() ==> (#[trigger] ring[i]).public_key.number() <= (
        #[trigger] ring[j]).public_key.number()
}

/// Whether `new` makes credentials of a ring, its proofs and an index.
pub open spec fn credentials_error(ring_len: nat, proofs_len: nat, real_index: usize) -> Option<
    TxBuilderError,
> {
    if real_index > ring_len {
        Some(TxBuilderError::InvalidRingSize)
    } else if real_index == ring_len {
        Some(TxBuilderError::NoInputs)
    } else if ring_len != proofs_len {
        Some(TxBuilderError::MissingMembershipProofs)
    } else {
        None
    }
}

impl InputCredentials {
    /// Makes the credentials of an input that spends `ring[real_index]`.
    ///
    /// The ring is sorted by public key, each proof moving with its output,
    /// so that the order of a transaction's ring members says nothing of
    /// how the wallet chose them. The index of the spent output follows it
    /// to its new place, the first at which that output stands.
    pub fn new(
        ring: Vec<TxOut>,
        membership_proofs: Vec<TxOutMembershipProof>,
        real_index: usize,
        input_secret: InputSecret,
    ) -> (r: Result<InputCredentials, TxBuilderError>)
        ensures
            match credentials_error(ring@.len(), membership_proofs@.len(), real_index) {
                Some(e) => r == Err::<InputCredentials, TxBuilderError>(e),
                None => r is Ok && ({
                    let c = r.unwrap();
                    let sorted = sorted_ring_members(ring@, membership_proofs@);
                    &&& c.ring@ == Seq::new(sorted.len(), |i: int| sorted[i].tx_out)
                    &&& c.membership_proofs@ == Seq::new(
                        sorted.len(),
                        |i: int| sorted[i].membership_proof,
                    )
                    &&& c.ring@.len() == ring@.len()
                    &&& ring_is_sorted(c.ring@)
                    &&& c.real_index < c.ring@.len()
                    &&& c.ring@[c.real_index as int] == ring@[real_index as int]
                    &&& forall|k: int|
                        0 <= k < c.real_index ==> c.ring@[k] != ring@[real_index as int]
                    &&& c.input_secret == input_secret
                }),
            },
    {
        let n: usize = ring.len();
        if real_index > n {
            return Err(TxBuilderError::InvalidRingSize);
        }
        if real_index == n {
            return Err(TxBuilderError::NoInputs);
        }
        if n != membership_proofs.len() {
            return Err(TxBuilderError::MissingMembershipProofs);
        }
        let real_input: TxOut = ring[real_index];
        let ghost all_proofs = membership_proofs@;
        let ghost members_before = ring_members(ring@, all_proofs);
        let mut proofs_left = membership_proofs;
        let mut members: Vec<RingMember> = Vec::new();
        let mut i: usize = 0;
        while i < n
            invariant
                0 <= i <= n,
                n == ring@.len(),
                n == all_proofs.len(),
                proofs_left@ == all_proofs.skip(i as int),
                members@ == members_before.take(i as int),
                members_before == ring_members(ring@, all_proofs),
            decreases n - i,
        {
            let membership_proof = proofs_left.remove(0);
            members.push(RingMember { tx_out: ring[i], membership_proof });
            proof {
                assert(proofs_left@ =~= all_proofs.skip(i + 1));
                assert(members@ =~= members_before.take(i + 1));
            }
            i += 1;
        }
        proof {
            assert(members@ =~= members_before);
        }
        sort_by_key::<RingMember, DefaultTxOutputsOrdering>(&mut members);
        let ghost sorted = members@;
        proof {
            lemma_stable_sort_is_permutation::<RingMember, DefaultTxOutputsOrdering>(
                members_before,
            );
            lemma_stable_sort_is_sorted::<RingMember>(members_before);
        }
        let mut sorted_ring: Vec<TxOut> = Vec::new();
        let mut sorted_proofs: Vec<TxOutMembershipProof> = Vec::new();
        let mut j: usize = 0;
        while j < n
            invariant
                0 <= j <= n,
                n == sorted.len(),
                members@ == sorted.skip(j as int),
                sorted_ring@ == Seq::new(j as nat, |k: int| sorted[k].tx_out),
                sorted_proofs@ == Seq::new(j as nat, |k: int| sorted[k].membership_proof),
            decreases n - j,
        {
            let member = members.remove(0);
            let RingMember { tx_out, membership_proof } = member;
            sorted_ring.push(tx_out);
            sorted_proofs.push(membership_proof);
            proof {
                assert(members@ =~= sorted.skip(j + 1));
                assert(sorted_ring@ =~= Seq::new((j + 1) as nat, |k: int| sorted[k].tx_out));
                assert(sorted_proofs@ =~= Seq::new(
                    (j + 1) as nat,
                    |k: int| sorted[k].membership_proof,
                ));
            }
            j += 1;
        }
        proof {
            // The spent output is still in the ring.
            let spent = members_before[real_index as int];
            assert(members_before.contains(spent));
            vstd::seq_lib::to_multiset_contains(members_before, spent);
            vstd::seq_lib::to_multiset_contains(sorted, spent);
            let at = choose|at: int| 0 <= at < sorted.len() && sorted[at] == spent;
            assert(sorted_ring@[at] == real_input);
        }
        let mut place: usize = 0;
        while place < n && !sorted_ring[place].same(&real_input)
            invariant
                0 <= place <= n,
                n == sorted_ring@.len(),
                forall|k: int| 0 <= k < place ==> sorted_ring@[k] != real_input,
                exists|at: int| 0 <= at < n && sorted_ring@[at] == real_input,
            decreases n - place,
        {
            place += 1;
        }
        proof {
            assert forall|a: int, b: int| 0 <= a < b < sorted_ring@.len() implies (
            #[trigger] sorted_ring@[a]).public_key.number() <= (
            #[trigger] sorted_ring@[b]).public_key.number() by {
                assert(sorted[a].spec_sort_key().number() <= sorted[b].spec_sort_key().number());
            }
        }
        Ok(
            InputCredentials {
                ring: sorted_ring,
                membership_proofs: sorted_proofs,
                real_index: place,
                input_secret,
            },
        )
    }
}

} // verus!
