//! Outputs on their way into a transaction: planned by the builder, sealed
//! by the caller, and held as drafts until the transaction is built.

use vstd::prelude::*;
use crate::address::{FogPubkeyResolver, PublicAddress};
use crate::amount::Amount;
use crate::block_version::BlockVersion;
use crate::error::TxBuilderError;
use crate::keys::CompressedRistrettoPublic;
use crate::memo::{MemoContext, MemoPayload};
use crate::ordering::SortKeyed;
use crate::tx::{MaskedAmount, OutputSecret, TxOut, TxOutConfirmationNumber};

verus! {

/// An output that the builder holds until the transaction is built, with
/// what opens its commitment.
#[derive(Clone, Copy, Debug, PartialEq, Eq)]
pub struct OutputDraft {
    pub tx_out: TxOut,
    pub secret: OutputSecret,
}

/// Outputs are sorted by their public key.
impl SortKeyed for OutputDraft {
    open spec fn has_sort_key(&self) -> bool {
        true
    }

    open spec fn spec_sort_key(&self) -> CompressedRistrettoPublic {
        self.tx_out.public_key
    }

    fn sort_key(&self) -> (k: CompressedRistrettoPublic) {
        self.tx_out.public_key
    }
}

/// How the fog hint of an output is to be made.
#[derive(Clone, Copy, Debug, PartialEq, Eq)]
pub enum FogHintPlan {
    /// The address has no fog: the hint is random bytes that look like a
    /// real hint and that no fog key opens.
    FakeOnetimeHint,
    /// The hint is encrypted for this fog public key.
    Encrypt(CompressedRistrettoPublic),
}

/// What the builder has decided of an output that is still to be sealed.
#[derive(Clone, Debug, PartialEq, Eq)]
pub struct OutputPlan {
    pub amount: Amount,
    /// The address that owns the output.
    pub recipient: PublicAddress,
    /// The address that the fog hint is made for.
    pub fog_hint_address: PublicAddress,
    pub fog_hint: FogHintPlan,
    /// The last block at which the fog key is valid; the largest block
    /// index where there is no fog key.
    pub pubkey_expiry: u64,
    /// The memo that the policy authored; `None` where the block version has
    /// no memos.
    pub memo: Option<MemoPayload>,
    pub memo_context: MemoContext,
}

/// An output as the caller sealed it from a plan, with what the caller
/// found when opening it again.
#[derive(Clone, Copy, Debug, PartialEq, Eq)]
pub struct SealedOutput {
    pub tx_out: TxOut,
    /// What the output's masked amount opens to under the secret that
    /// sender and recipient share; `None` if it does not open.
    pub opened: Option<OutputSecret>,
    /// The confirmation number derived from that shared secret.
    pub confirmation: TxOutConfirmationNumber,
}

/// The fog hint that an output for `recipient` gets, and the block at which
/// the fog key behind it expires.
pub open spec fn fog_hint_for<FPR: FogPubkeyResolver>(
    recipient: PublicAddress,
    fog_resolver: FPR,
) -> Result<(FogHintPlan, u64), TxBuilderError> {
    if !recipient.has_fog() {
        Ok((FogHintPlan::FakeOnetimeHint, u64::MAX))
    } else {
        match fog_resolver.fog_pubkey(recipient) {
            Ok(key) => Ok((FogHintPlan::Encrypt(key.pubkey), key.pubkey_expiry)),
            Err(e) => Err(TxBuilderError::FogPublicKey(e)),
        }
    }
}

/// Decides how the fog hint for `recipient` is made: a fake hint for an
/// address without fog, else a hint for the fog key that the resolver
/// holds for the address.
pub fn create_fog_hint<FPR: FogPubkeyResolver>(recipient: &PublicAddress, fog_resolver: &FPR) -> (r:
    Result<(FogHintPlan, u64), TxBuilderError>)
    ensures
        r == fog_hint_for(*recipient, *fog_resolver),
{
    if !recipient.has_fog() {
        return Ok((FogHintPlan::FakeOnetimeHint, u64::MAX));
    }
    match fog_resolver.get_fog_pubkey(recipient) {
        Ok(key) => Ok((FogHintPlan::Encrypt(key.pubkey), key.pubkey_expiry)),
        Err(e) => Err(TxBuilderError::FogPublicKey(e)),
    }
}

/// A sealed output as a block version admits it: without a memo where the
/// version has no memos, without a masked token id where it has none.
pub open spec fn gated_output(block_version: BlockVersion, tx_out: TxOut) -> TxOut {
    TxOut {
        masked_amount: MaskedAmount {
            masked_token_id: if block_version.masked_token_id_feature_is_supported() {
                tx_out.masked_amount.masked_token_id
            } else {
                None
            },
            ..tx_out.masked_amount
        },
        e_memo: if block_version.e_memo_feature_is_supported() {
            tx_out.e_memo
        } else {
            None
        },
        ..tx_out
    }
}

/// Clears from a sealed output what the block version does not have.
pub fn create_output_with_fog_hint(block_version: BlockVersion, sealed: TxOut) -> (tx_out: TxOut)
    ensures
        tx_out == gated_output(block_version, sealed),
{
    let mut tx_out = sealed;
    if !block_version.e_memo_feature_is_supported() {
        tx_out.e_memo = None;
    }
    if !block_version.masked_token_id_feature_is_supported() {
        tx_out.masked_amount.masked_token_id = None;
    }
    tx_out
}

/// Whatever the caller sealed, an output of a block version without memos
/// has no memo, and one of a version without masked token ids has none; the
/// keys, the commitment, the masked value and the fog hint stay as sealed.
pub proof fn lemma_gated_output_has_only_supported_fields(
    block_version: BlockVersion,
    tx_out: TxOut,
)
    ensures
        !block_version.e_memo_feature_is_supported() ==> gated_output(
            block_version,
            tx_out,
        ).e_memo is None,
        !block_version.masked_token_id_feature_is_supported() ==> gated_output(
            block_version,
            tx_out,
        ).masked_amount.masked_token_id is None,
        block_version.e_memo_feature_is_supported()
            && block_version.masked_token_id_feature_is_supported() ==> gated_output(
            block_version,
            tx_out,
        ) == tx_out,
        gated_output(block_version, tx_out).public_key == tx_out.public_key,
        gated_output(block_version, tx_out).target_key == tx_out.target_key,
        gated_output(block_version, tx_out).e_fog_hint == tx_out.e_fog_hint,
        gated_output(block_version, tx_out).masked_amount.commitment
            == tx_out.masked_amount.commitment,
        gated_output(block_version, tx_out).masked_amount.masked_value
            == tx_out.masked_amount.masked_value,
{
}

} // verus!
