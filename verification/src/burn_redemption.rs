//! The memo policy of a transaction that burns tokens to redeem them
//! elsewhere.
//!
//! Such a transaction pays the burn address once, with a memo that says
//! what the burn redeems, and may return change to the sender.

use vstd::prelude::*;
use crate::address::{same_address, PublicAddress, ReservedDestination, ShortAddressHash};
use crate::amount::{Amount, TokenId, MINIMUM_FEE, MOB_TOKEN_ID};
use crate::error::NewMemoError;
use crate::memo::{unused_memo, MemoBuilder, MemoContext, MemoPayload};
use crate::memo_payloads::{
    burn_redemption_memo, burn_redemption_payload, destination_memo, destination_payload,
    MAX_DESTINATION_MEMO_FEE,
};

verus! {

/// The memo policy of a burn.
///
/// It pays the burn address once and nobody else. With destination memos
/// enabled it also writes one destination memo, on the change output, which
/// must follow the burn output; after it neither the fee may change nor
/// another output be added.
#[derive(Clone, Debug, PartialEq, Eq)]
pub struct BurnRedemptionMemoBuilder {
    /// What the burn redeems.
    pub memo_data: [u8; 64],
    /// The address that burnt tokens are sent to.
    pub burn_address: PublicAddress,
    pub destination_memo_enabled: bool,
    /// Whether the destination memo has been written.
    pub wrote_destination_memo: bool,
    /// The amount of the burn output, once it has been added.
    pub burn_amount: Option<Amount>,
    /// The hash of the address of the last output.
    pub last_recipient: ShortAddressHash,
    pub fee: Amount,
}

/// The total outlay that the destination memo records: the burnt amount
/// and the fee.
pub open spec fn total_outlay(burn_amount: Amount, fee: Amount) -> int {
    burn_amount.value + fee.value
}

impl BurnRedemptionMemoBuilder {
    /// A policy that has seen nothing yet, with destination memos disabled.
    pub fn new(memo_data: [u8; 64], burn_address: PublicAddress) -> (policy:
        BurnRedemptionMemoBuilder)
        ensures
            policy == (BurnRedemptionMemoBuilder {
                memo_data,
                burn_address,
                destination_memo_enabled: false,
                wrote_destination_memo: false,
                burn_amount: None,
                last_recipient: ShortAddressHash {
                    bytes: vstd::array::spec_array_fill_for_copy_type::<u8, 16>(0u8),
                },
                fee: Amount { value: MINIMUM_FEE, token_id: TokenId { id: MOB_TOKEN_ID } },
            }),
    {
        BurnRedemptionMemoBuilder {
            memo_data,
            burn_address,
            destination_memo_enabled: false,
            wrote_destination_memo: false,
            burn_amount: None,
            last_recipient: ShortAddressHash { bytes: [0u8; 16] },
            fee: Amount { value: MINIMUM_FEE, token_id: TokenId { id: MOB_TOKEN_ID } },
        }
    }

    /// Says whether the change output gets a destination memo.
    pub fn set_destination_memo_enabled(&mut self, enabled: bool)
        ensures
            *final(self) == (BurnRedemptionMemoBuilder {
                destination_memo_enabled: enabled,
                ..*old(self)
            }),
    {
        self.destination_memo_enabled = enabled;
    }

    /// Gives the change output a destination memo.
    pub fn enable_destination_memo(&mut self)
        ensures
            *final(self) == (BurnRedemptionMemoBuilder {
                destination_memo_enabled: true,
                ..*old(self)
            }),
    {
        self.set_destination_memo_enabled(true);
    }

    /// Gives the change output an unused memo.
    pub fn disable_destination_memo(&mut self)
        ensures
            *final(self) == (BurnRedemptionMemoBuilder {
                destination_memo_enabled: false,
                ..*old(self)
            }),
    {
        self.set_destination_memo_enabled(false);
    }

    /// Why the policy writes no destination memo, if it writes none.
    pub open spec fn change_error(&self, amount: Amount) -> Option<NewMemoError> {
        if self.wrote_destination_memo {
            Some(NewMemoError::MultipleChangeOutputs)
        } else if self.burn_amount is None {
            Some(NewMemoError::MissingOutput)
        } else if self.burn_amount.unwrap().token_id != self.fee.token_id
            || self.burn_amount.unwrap().token_id != amount.token_id {
            Some(NewMemoError::MixedTokenIds)
        } else if total_outlay(self.burn_amount.unwrap(), self.fee) > u64::MAX {
            Some(NewMemoError::LimitsExceeded)
        } else if self.fee.value > MAX_DESTINATION_MEMO_FEE {
            Some(NewMemoError::LimitsExceeded)
        } else {
            None
        }
    }
}

impl MemoBuilder for BurnRedemptionMemoBuilder {
    /// The fee may change until the destination memo is written.
    open spec fn fee_answer(&self, fee: Amount) -> Result<(), NewMemoError> {
        if self.wrote_destination_memo {
            Err(NewMemoError::FeeAfterChange)
        } else {
            Ok(())
        }
    }

    open spec fn after_fee(&self, fee: Amount) -> Self {
        if self.wrote_destination_memo {
            *self
        } else {
            BurnRedemptionMemoBuilder { fee, ..*self }
        }
    }

    /// One output, to the burn address, before the destination memo.
    open spec fn output_answer(
        &self,
        amount: Amount,
        recipient: PublicAddress,
        memo_context: MemoContext,
    ) -> Result<MemoPayload, NewMemoError> {
        if !same_address(recipient, self.burn_address) {
            Err(NewMemoError::InvalidRecipient)
        } else if self.burn_amount is Some {
            Err(NewMemoError::MultipleOutputs)
        } else if self.wrote_destination_memo {
            Err(NewMemoError::OutputsAfterChange)
        } else {
            Ok(burn_redemption_payload(self.memo_data))
        }
    }

    open spec fn after_output(
        &self,
        amount: Amount,
        recipient: PublicAddress,
        memo_context: MemoContext,
    ) -> Self {
        if self.output_answer(amount, recipient, memo_context) is Ok {
            BurnRedemptionMemoBuilder {
                burn_amount: Some(amount),
                last_recipient: memo_context.recipient_address_hash,
                ..*self
            }
        } else {
            *self
        }
    }

    /// An unused memo where destination memos are disabled; else one
    /// destination memo, after the burn output and in its token id.
    open spec fn change_answer(
        &self,
        amount: Amount,
        change_destination: ReservedDestination,
        memo_context: MemoContext,
    ) -> Result<MemoPayload, NewMemoError> {
        if !self.destination_memo_enabled {
            Ok(unused_memo())
        } else {
            match self.change_error(amount) {
                Some(e) => Err(e),
                None => Ok(
                    destination_payload(
                        self.last_recipient,
                        1,
                        self.fee.value,
                        total_outlay(self.burn_amount.unwrap(), self.fee) as u64,
                    ),
                ),
            }
        }
    }

    open spec fn after_change(
        &self,
        amount: Amount,
        change_destination: ReservedDestination,
        memo_context: MemoContext,
    ) -> Self {
        if self.destination_memo_enabled && self.change_error(amount) is None {
            BurnRedemptionMemoBuilder { wrote_destination_memo: true, ..*self }
        } else {
            *self
        }
    }

    fn set_fee(&mut self, fee: Amount) -> (r: Result<(), NewMemoError>) {
        if self.wrote_destination_memo {
            return Err(NewMemoError::FeeAfterChange);
        }
        self.fee = fee;
        Ok(())
    }

    fn make_memo_for_output(
        &mut self,
        amount: Amount,
        recipient: &PublicAddress,
        memo_context: MemoContext,
    ) -> (r: Result<MemoPayload, NewMemoError>) {
        if !recipient.same(&self.burn_address) {
            return Err(NewMemoError::InvalidRecipient);
        }
        if self.burn_amount.is_some() {
            return Err(NewMemoError::MultipleOutputs);
        }
        if self.wrote_destination_memo {
            return Err(NewMemoError::OutputsAfterChange);
        }
        self.burn_amount = Some(amount);
        self.last_recipient = memo_context.recipient_address_hash;
        Ok(burn_redemption_memo(&self.memo_data))
    }

    fn make_memo_for_change_output(
        &mut self,
        amount: Amount,
        change_destination: &ReservedDestination,
        memo_context: MemoContext,
    ) -> (r: Result<MemoPayload, NewMemoError>) {
        if !self.destination_memo_enabled {
            return Ok(MemoPayload { bytes: [0u8; 66] });
        }
        if self.wrote_destination_memo {
            return Err(NewMemoError::MultipleChangeOutputs);
        }
        let burn_amount: Amount = match self.burn_amount {
            Some(burn_amount) => burn_amount,
            None => {
                return Err(NewMemoError::MissingOutput);
            },
        };
        if !(burn_amount.token_id == self.fee.token_id) || !(burn_amount.token_id
            == amount.token_id) {
            return Err(NewMemoError::MixedTokenIds);
        }
        let outlay: u64 = match burn_amount.value.checked_add(self.fee.value) {
            Some(outlay) => outlay,
            None => {
                return Err(NewMemoError::LimitsExceeded);
            },
        };
        if self.fee.value > MAX_DESTINATION_MEMO_FEE {
            return Err(NewMemoError::LimitsExceeded);
        }
        self.wrote_destination_memo = true;
        Ok(destination_memo(&self.last_recipient, 1, self.fee.value, outlay))
    }
}

/// Under the burn policy a second output is declined, whomever it pays, and
/// so is any output that does not pay the burn address.
pub proof fn lemma_burn_pays_the_burn_address_once(
    policy: BurnRedemptionMemoBuilder,
    first: Amount,
    second: Amount,
    recipient: PublicAddress,
    memo_context: MemoContext,
    later_context: MemoContext,
)
    requires
        policy.output_answer(first, policy.burn_address, memo_context) is Ok,
    ensures
        policy.after_output(first, policy.burn_address, memo_context).output_answer(
            second,
            recipient,
            later_context,
        ) == Err::<MemoPayload, NewMemoError>(
            if same_address(recipient, policy.burn_address) {
                NewMemoError::MultipleOutputs
            } else {
                NewMemoError::InvalidRecipient
            },
        ),
        !same_address(recipient, policy.burn_address) ==> policy.output_answer(
            second,
            recipient,
            later_context,
        ) == Err::<MemoPayload, NewMemoError>(NewMemoError::InvalidRecipient),
{
}

} // verus!
