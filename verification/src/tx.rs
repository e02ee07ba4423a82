//! The parts of a transaction.
//!
//! Keys, commitments and ciphertexts are held in their wire encodings: the
//! builder moves and compares them, and never looks inside.

use vstd::prelude::*;
use crate::amount::Amount;
use crate::bytes::bytes_equal;
use crate::keys::CompressedRistrettoPublic;

verus! {

/// A Pedersen commitment in its 32-byte compressed encoding.
#[derive(Clone, Copy, Debug, PartialEq, Eq)]
pub struct CompressedCommitment {
    pub bytes: [u8; 32],
}

/// A fog hint, encrypted for a fog ingest enclave.
#[derive(Clone, Copy, Debug, PartialEq, Eq)]
pub struct EncryptedFogHint {
    pub bytes: [u8; 84],
}

/// A memo, encrypted for the recipient of the output that carries it.
#[derive(Clone, Copy, Debug, PartialEq, Eq)]
pub struct EncryptedMemo {
    pub bytes: [u8; 66],
}

/// A committed amount whose value and token id only the recipient can read.
#[derive(Clone, Copy, Debug, PartialEq, Eq)]
pub struct MaskedAmount {
    pub commitment: CompressedCommitment,
    pub masked_value: u64,
    /// The masked token id; `None` where the block version has none.
    pub masked_token_id: Option<u64>,
}

/// An output of a transaction, as the ledger stores it.
#[derive(Clone, Copy, Debug, PartialEq, Eq)]
pub struct TxOut {
    pub masked_amount: MaskedAmount,
    pub target_key: CompressedRistrettoPublic,
    pub public_key: CompressedRistrettoPublic,
    pub e_fog_hint: EncryptedFogHint,
    pub e_memo: Option<EncryptedMemo>,
}

impl MaskedAmount {
    pub fn same(&self, other: &MaskedAmount) -> (b: bool)
        ensures
            b == (*self == *other),
    {
        let ids: bool = match (self.masked_token_id, other.masked_token_id) {
            (Some(x), Some(y)) => x == y,
            (None, None) => true,
            _ => false,
        };
        ids && self.masked_value == other.masked_value && bytes_equal(
            &self.commitment.bytes,
            &other.commitment.bytes,
        )
    }
}

impl TxOut {
    /// Whether two outputs agree in every field.
    pub fn same(&self, other: &TxOut) -> (b: bool)
        ensures
            b == (*self == *other),
    {
        let memos: bool = match (self.e_memo, other.e_memo) {
            (Some(x), Some(y)) => bytes_equal(&x.bytes, &y.bytes),
            (None, None) => true,
            _ => false,
        };
        memos && self.masked_amount.same(&other.masked_amount) && self.target_key.same(
            &other.target_key,
        ) && self.public_key.same(&other.public_key) && bytes_equal(
            &self.e_fog_hint.bytes,
            &other.e_fog_hint.bytes,
        )
    }
}

/// A proof that an output is in the ledger. The builder carries it along and
/// never checks it.
#[derive(Clone, Debug, PartialEq, Eq)]
pub struct TxOutMembershipProof {
    pub index: u64,
    pub highest_index: u64,
    pub elements: Vec<u8>,
}

/// What the signer of an input demands of the transaction that spends it.
#[derive(Clone, Debug, PartialEq, Eq)]
pub struct InputRules {
    /// Outputs that the transaction must hold.
    pub required_outputs: Vec<TxOut>,
    /// The transaction's tombstone block may not exceed this; zero for no
    /// limit.
    pub max_tombstone_block: u64,
}

/// An input of a transaction: a ring of outputs of which one is spent.
#[derive(Clone, Debug, PartialEq, Eq)]
pub struct TxIn {
    pub ring: Vec<TxOut>,
    pub proofs: Vec<TxOutMembershipProof>,
    pub input_rules: Option<InputRules>,
}

/// All of a transaction that its signature covers.
#[derive(Clone, Debug, PartialEq, Eq)]
pub struct TxPrefix {
    pub inputs: Vec<TxIn>,
    pub outputs: Vec<TxOut>,
    pub fee: Amount,
    pub tombstone_block: u64,
}

/// A ring signature with its range proofs, as the signer encoded them.
#[derive(Clone, Debug, PartialEq, Eq)]
pub struct RingSignature {
    pub bytes: Vec<u8>,
}

/// A signed transaction.
#[derive(Clone, Debug, PartialEq, Eq)]
pub struct Tx {
    pub prefix: TxPrefix,
    pub signature: RingSignature,
}

/// What opens the commitment of an output: its amount and blinding factor.
#[derive(Clone, Copy, Debug, PartialEq, Eq)]
pub struct OutputSecret {
    pub amount: Amount,
    pub blinding: [u8; 32],
}

/// An amount in the clear, with the blinding factor of its commitment.
#[derive(Clone, Copy, Debug, PartialEq, Eq)]
pub struct UnmaskedAmount {
    pub value: u64,
    pub token_id: u64,
    pub blinding: [u8; 32],
}

/// Proves to a recipient that the holder built the output it belongs to.
#[derive(Clone, Copy, Debug, PartialEq, Eq)]
pub struct TxOutConfirmationNumber {
    pub bytes: [u8; 32],
}

} // verus!
