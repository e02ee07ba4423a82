//! Conservation of value: what a transaction's inputs bring, its outputs
//! and its fee take away, token id by token id.

use vstd::prelude::*;
use crate::amount::{Amount, TokenId};

verus! {

/// What an amount adds to the lane of a token id: its value if it is of
/// that token id, nothing if it is not.
pub open spec fn share_of(amount: Amount, token_id: TokenId) -> int {
    if amount.token_id == token_id {
        amount.value as int
    } else {
        0
    }
}

/// The sum of the values of those amounts that are of a token id.
pub open spec fn lane_total(amounts: Seq<Amount>, token_id: TokenId) -> int
    decreases amounts.len(),
{
    if amounts.len() == 0 {
        0
    } else {
        lane_total(amounts.drop_last(), token_id) + share_of(amounts.last(), token_id)
    }
}

/// Whether, in the lane of one token id, the inputs add up to the outputs
/// and the fee.
pub open spec fn is_conserved_in_lane(
    inputs: Seq<Amount>,
    outputs: Seq<Amount>,
    fee: Amount,
    token_id: TokenId,
) -> bool {
    lane_total(inputs, token_id) == lane_total(outputs, token_id) + share_of(fee, token_id)
}

/// Whether the inputs add up to the outputs and the fee in every lane.
pub open spec fn is_conserved(inputs: Seq<Amount>, outputs: Seq<Amount>, fee: Amount) -> bool {
    forall|token_id: TokenId| is_conserved_in_lane(inputs, outputs, fee, token_id)
}

/// A lane total is at least zero and at most what as many largest values
/// would add up to.
pub proof fn lemma_lane_total_is_bounded(amounts: Seq<Amount>, token_id: TokenId)
    ensures
        0 <= lane_total(amounts, token_id) <= amounts.len() * u64::MAX,
    decreases amounts.len(),
{
    if amounts.len() > 0 {
        lemma_lane_total_is_bounded(amounts.drop_last(), token_id);
    }
}

/// The lane of a token id that no amount has is empty.
pub proof fn lemma_lane_of_absent_token_is_empty(amounts: Seq<Amount>, token_id: TokenId)
    requires
        forall|i: int| 0 <= i < amounts.len() ==> (#[trigger] amounts[i]).token_id != token_id,
    ensures
        lane_total(amounts, token_id) == 0,
    decreases amounts.len(),
{
    if amounts.len() > 0 {
        assert forall|i: int| 0 <= i < amounts.drop_last().len() implies (
        #[trigger] amounts.drop_last()[i]).token_id != token_id by {
            assert(amounts.drop_last()[i] == amounts[i]);
        }
        lemma_lane_of_absent_token_is_empty(amounts.drop_last(), token_id);
    }
}

/// Replacing one amount changes a lane total by what the new amount adds
/// to the lane less what the old one added.
pub proof fn lemma_lane_total_of_update(
    amounts: Seq<Amount>,
    k: int,
    amount: Amount,
    token_id: TokenId,
)
    requires
        0 <= k < amounts.len(),
    ensures
        lane_total(amounts.update(k, amount), token_id) == lane_total(amounts, token_id)
            - share_of(amounts[k], token_id) + share_of(amount, token_id),
    decreases amounts.len(),
{
    let updated = amounts.update(k, amount);
    if k == amounts.len() - 1 {
        assert(updated.drop_last() =~= amounts.drop_last());
    } else {
        assert(updated.drop_last() =~= amounts.drop_last().update(k, amount));
        lemma_lane_total_of_update(amounts.drop_last(), k, amount, token_id);
    }
}

/// If value is conserved, it is no longer once one output has another
/// value, be it by a single unit.
pub proof fn lemma_changed_value_breaks_conservation(
    inputs: Seq<Amount>,
    outputs: Seq<Amount>,
    fee: Amount,
    k: int,
    value: u64,
)
    requires
        is_conserved(inputs, outputs, fee),
        0 <= k < outputs.len(),
        value != outputs[k].value,
    ensures
        !is_conserved(
            inputs,
            outputs.update(k, Amount { value, token_id: outputs[k].token_id }),
            fee,
        ),
{
    let token_id = outputs[k].token_id;
    let changed = outputs.update(k, Amount { value, token_id });
    lemma_lane_total_of_update(outputs, k, Amount { value, token_id }, token_id);
    assert(is_conserved_in_lane(inputs, outputs, fee, token_id));
    assert(!is_conserved_in_lane(inputs, changed, fee, token_id));
}

/// If value is conserved, it is no longer once one output of a value
/// above zero has another token id.
pub proof fn lemma_changed_token_id_breaks_conservation(
    inputs: Seq<Amount>,
    outputs: Seq<Amount>,
    fee: Amount,
    k: int,
    token_id: TokenId,
)
    requires
        is_conserved(inputs, outputs, fee),
        0 <= k < outputs.len(),
        token_id != outputs[k].token_id,
        outputs[k].value > 0,
    ensures
        !is_conserved(inputs, outputs.update(k, Amount { value: outputs[k].value, token_id }), fee),
{
    let old_token_id = outputs[k].token_id;
    let moved = Amount { value: outputs[k].value, token_id };
    let changed = outputs.update(k, moved);
    lemma_lane_total_of_update(outputs, k, moved, old_token_id);
    assert(is_conserved_in_lane(inputs, outputs, fee, old_token_id));
    assert(!is_conserved_in_lane(inputs, changed, fee, old_token_id));
}

/// The sum of the values of those amounts that are of a token id.
pub fn lane_sum(amounts: &Vec<Amount>, token_id: TokenId) -> (sum: u128)
    ensures
        sum == lane_total(amounts@, token_id),
        sum <= amounts@.len() * u64::MAX,
{
    let n: usize = amounts.len();
    let mut sum: u128 = 0;
    let mut i: usize = 0;
    while i < n
        invariant
            0 <= i <= n,
            n == amounts@.len(),
            sum == lane_total(amounts@.take(i as int), token_id),
            sum <= i * u64::MAX,
        decreases n - i,
    {
        proof {
            assert(amounts@.take(i + 1).drop_last() =~= amounts@.take(i as int));
            assert((i + 1) * u64::MAX <= usize::MAX * u64::MAX) by (nonlinear_arith)
                requires
                    i + 1 <= usize::MAX,
            ;
        }
        if amounts[i].token_id == token_id {
            sum = sum + amounts[i].value as u128;
        }
        i += 1;
    }
    proof {
        assert(amounts@.take(n as int) =~= amounts@);
    }
    sum
}

/// Whether the inputs add up to the outputs and the fee in the lane of a
/// token id.
pub fn lane_is_conserved(
    inputs: &Vec<Amount>,
    outputs: &Vec<Amount>,
    fee: Amount,
    token_id: TokenId,
) -> (b: bool)
    ensures
        b == is_conserved_in_lane(inputs@, outputs@, fee, token_id),
{
    let brought: u128 = lane_sum(inputs, token_id);
    let taken: u128 = lane_sum(outputs, token_id);
    let count: usize = outputs.len();
    proof {
        assert(count * u64::MAX <= usize::MAX * u64::MAX) by (nonlinear_arith)
            requires
                count <= usize::MAX,
        ;
    }
    let fee_share: u128 = if fee.token_id == token_id {
        fee.value as u128
    } else {
        0
    };
    brought == taken + fee_share
}

/// Whether the inputs add up to the outputs and the fee in every lane.
pub fn conserves_value(inputs: &Vec<Amount>, outputs: &Vec<Amount>, fee: Amount) -> (b: bool)
    ensures
        b == is_conserved(inputs@, outputs@, fee),
{
    if !lane_is_conserved(inputs, outputs, fee, fee.token_id) {
        return false;
    }
    let mut i: usize = 0;
    while i < inputs.len()
        invariant
            0 <= i <= inputs@.len(),
            forall|k: int|
                0 <= k < i ==> is_conserved_in_lane(
                    inputs@,
                    outputs@,
                    fee,
                    (#[trigger] inputs@[k]).token_id,
                ),
        decreases inputs@.len() - i,
    {
        if !lane_is_conserved(inputs, outputs, fee, inputs[i].token_id) {
            return false;
        }
        i += 1;
    }
    let mut j: usize = 0;
    while j < outputs.len()
        invariant
            0 <= j <= outputs@.len(),
            forall|k: int|
                0 <= k < j ==> is_conserved_in_lane(
                    inputs@,
                    outputs@,
                    fee,
                    (#[trigger] outputs@[k]).token_id,
                ),
        decreases outputs@.len() - j,
    {
        if !lane_is_conserved(inputs, outputs, fee, outputs[j].token_id) {
            return false;
        }
        j += 1;
    }
    proof {
        assert forall|token_id: TokenId| is_conserved_in_lane(
            inputs@,
            outputs@,
            fee,
            token_id,
        ) by {
            if exists|k: int| 0 <= k < inputs@.len() && (#[trigger] inputs@[k]).token_id == token_id {
                let k = choose|k: int|
                    0 <= k < inputs@.len() && (#[trigger] inputs@[k]).token_id == token_id;
                assert(is_conserved_in_lane(inputs@, outputs@, fee, inputs@[k].token_id));
            } else if exists|k: int|
                0 <= k < outputs@.len() && (#[trigger] outputs@[k]).token_id == token_id {
                let k = choose|k: int|
                    0 <= k < outputs@.len() && (#[trigger] outputs@[k]).token_id == token_id;
                assert(is_conserved_in_lane(inputs@, outputs@, fee, outputs@[k].token_id));
            } else if fee.token_id == token_id {
            } else {
                lemma_lane_of_absent_token_is_empty(inputs@, token_id);
                lemma_lane_of_absent_token_is_empty(outputs@, token_id);
            }
        }
    }
    true
}

} // verus!
