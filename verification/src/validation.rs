//! What each input of a transaction is checked for before the transaction
//! is built.

use vstd::prelude::*;
use crate::amount::Amount;
use crate::block_version::BlockVersion;
use crate::error::TxBuilderError;
use crate::input_materials::InputMaterials;

verus! {

/// Why one input cannot enter a transaction, if it cannot: its token id is
/// not the fee's where the block version allows one token id only; it is
/// pre-signed where the version does not allow that; or its ring and its
/// membership proofs differ in number.
pub open spec fn input_error(block_version: BlockVersion, fee: Amount, input: InputMaterials)
    -> Option<TxBuilderError> {
    if !block_version.mixed_transactions_are_supported() && input.amount().token_id
        != fee.token_id {
        Some(TxBuilderError::MixedTransactionsNotAllowed(fee.token_id, input.amount().token_id))
    } else if input is Presigned && !block_version.signed_input_rules_are_supported() {
        Some(TxBuilderError::SignedInputRulesNotAllowed)
    } else if input.ring().len() != input.proof_count() {
        Some(TxBuilderError::MissingMembershipProofs)
    } else {
        None
    }
}

/// The error of the first input that has one.
pub open spec fn first_input_error(
    block_version: BlockVersion,
    fee: Amount,
    inputs: Seq<InputMaterials>,
) -> Option<TxBuilderError>
    decreases inputs.len(),
{
    if inputs.len() == 0 {
        None
    } else {
        match first_input_error(block_version, fee, inputs.drop_last()) {
            Some(e) => Some(e),
            None => input_error(block_version, fee, inputs.last()),
        }
    }
}

/// Whether all rings have the size of the first.
pub open spec fn rings_have_one_size(inputs: Seq<InputMaterials>) -> bool {
    forall|i: int| 0 <= i < inputs.len() ==> (#[trigger] inputs[i]).ring().len() == inputs[0].ring().len()
}

/// An error among the first `k` inputs is the error of all of them.
pub proof fn lemma_first_input_error_of_prefix(
    block_version: BlockVersion,
    fee: Amount,
    inputs: Seq<InputMaterials>,
    k: int,
)
    requires
        0 <= k <= inputs.len(),
        first_input_error(block_version, fee, inputs.take(k)) is Some,
    ensures
        first_input_error(block_version, fee, inputs) == first_input_error(
            block_version,
            fee,
            inputs.take(k),
        ),
    decreases inputs.len() - k,
{
    if k == inputs.len() {
        assert(inputs.take(k) =~= inputs);
    } else {
        assert(inputs.drop_last().take(k) =~= inputs.take(k));
        lemma_first_input_error_of_prefix(block_version, fee, inputs.drop_last(), k);
    }
}

/// Where no input has an error, each input is fit to enter.
pub proof fn lemma_inputs_without_error_are_fit(
    block_version: BlockVersion,
    fee: Amount,
    inputs: Seq<InputMaterials>,
    k: int,
)
    requires
        first_input_error(block_version, fee, inputs) is None,
        0 <= k < inputs.len(),
    ensures
        input_error(block_version, fee, inputs[k]) is None,
    decreases inputs.len(),
{
    if k < inputs.len() - 1 {
        lemma_inputs_without_error_are_fit(block_version, fee, inputs.drop_last(), k);
    }
}

} // verus!
