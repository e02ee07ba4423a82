//! The memo policy that lets sender and recipient recover the history of
//! their payments from the ledger.
//!
//! Each output tells its recipient who sent it; the change output tells
//! the sender, who alone can read it, whom the transaction paid, how much
//! it paid out in all, and at what fee.

use vstd::prelude::*;
use crate::address::{PublicAddress, ReservedDestination, ShortAddressHash};
use crate::amount::{Amount, TokenId, MINIMUM_FEE, MOB_TOKEN_ID};
use crate::error::NewMemoError;
use crate::memo::{unused_memo, MemoBuilder, MemoContext, MemoPayload};
use crate::memo_payloads::{
    destination_memo, destination_payload, sender_memo, sender_payload,
    sender_with_payment_request_id_memo, sender_with_payment_request_id_payload,
    MAX_DESTINATION_MEMO_FEE,
};

verus! {

/// By what a sender is known in the memos that they write. The key with
/// which the memos are authenticated stays with whoever seals the outputs.
#[derive(Clone, Copy, Debug, PartialEq, Eq)]
pub struct SenderMemoCredential {
    /// The hash of the sender's address.
    pub address_hash: ShortAddressHash,
}

/// The memo policy of recoverable transaction history.
///
/// It writes a sender memo on every output, if it has the sender's
/// credential, and a destination memo on the change output, if destination
/// memos are enabled. All outputs are of one token id. After the
/// destination memo neither the fee may change nor another output be
/// added.
#[derive(Clone, Copy, Debug, PartialEq, Eq)]
pub struct RTHMemoBuilder {
    /// Who sends; without it outputs get an unused memo.
    pub sender_cred: Option<SenderMemoCredential>,
    /// The payment request that the payment answers, if any.
    pub payment_request_id: Option<u64>,
    pub destination_memo_enabled: bool,
    /// Whether the destination memo has been written.
    pub wrote_destination_memo: bool,
    /// The hash of the address of the last output.
    pub last_recipient: ShortAddressHash,
    /// What the outputs so far pay out; once the destination memo is
    /// written, the fee as well.
    pub total_outlay: u64,
    /// The token id of the outputs so far.
    pub outlay_token_id: Option<TokenId>,
    /// The number of outputs so far.
    pub num_recipients: u8,
    pub fee: Amount,
}

impl RTHMemoBuilder {
    /// The policy that has seen nothing yet: no credential, no payment
    /// request, destination memos disabled, and the smallest fee in the base
    /// token.
    pub open spec fn initial() -> RTHMemoBuilder {
        RTHMemoBuilder {
            sender_cred: None,
            payment_request_id: None,
            destination_memo_enabled: false,
            wrote_destination_memo: false,
            last_recipient: ShortAddressHash {
                bytes: vstd::array::spec_array_fill_for_copy_type::<u8, 16>(0u8),
            },
            total_outlay: 0,
            outlay_token_id: None,
            num_recipients: 0,
            fee: Amount { value: MINIMUM_FEE, token_id: TokenId { id: MOB_TOKEN_ID } },
        }
    }

    /// A policy that has seen nothing yet.
    pub fn new() -> (policy: RTHMemoBuilder)
        ensures
            policy == RTHMemoBuilder::initial(),
    {
        RTHMemoBuilder {
            sender_cred: None,
            payment_request_id: None,
            destination_memo_enabled: false,
            wrote_destination_memo: false,
            last_recipient: ShortAddressHash { bytes: [0u8; 16] },
            total_outlay: 0,
            outlay_token_id: None,
            num_recipients: 0,
            fee: Amount { value: MINIMUM_FEE, token_id: TokenId { id: MOB_TOKEN_ID } },
        }
    }

    /// Says who sends.
    pub fn set_sender_credential(&mut self, cred: SenderMemoCredential)
        ensures
            *final(self) == (RTHMemoBuilder { sender_cred: Some(cred), ..*old(self) }),
    {
        self.sender_cred = Some(cred);
    }

    /// Forgets who sends.
    pub fn clear_sender_credential(&mut self)
        ensures
            *final(self) == (RTHMemoBuilder { sender_cred: None, ..*old(self) }),
    {
        self.sender_cred = None;
    }

    /// Says which payment request the payment answers.
    pub fn set_payment_request_id(&mut self, id: u64)
        ensures
            *final(self) == (RTHMemoBuilder { payment_request_id: Some(id), ..*old(self) }),
    {
        self.payment_request_id = Some(id);
    }

    /// Says that the payment answers no payment request.
    pub fn clear_payment_request_id(&mut self)
        ensures
            *final(self) == (RTHMemoBuilder { payment_request_id: None, ..*old(self) }),
    {
        self.payment_request_id = None;
    }

    /// Gives the change output a destination memo.
    pub fn enable_destination_memo(&mut self)
        ensures
            *final(self) == (RTHMemoBuilder { destination_memo_enabled: true, ..*old(self) }),
    {
        self.destination_memo_enabled = true;
    }

    /// Gives the change output an unused memo.
    pub fn disable_destination_memo(&mut self)
        ensures
            *final(self) == (RTHMemoBuilder { destination_memo_enabled: false, ..*old(self) }),
    {
        self.destination_memo_enabled = false;
    }

    /// Why the policy writes no memo for an output, if it writes none.
    pub open spec fn output_error(&self, amount: Amount) -> Option<NewMemoError> {
        if self.wrote_destination_memo {
            Some(NewMemoError::OutputsAfterChange)
        } else if self.outlay_token_id is Some && self.outlay_token_id.unwrap()
            != amount.token_id {
            Some(NewMemoError::MixedTokenIds)
        } else if self.total_outlay + amount.value > u64::MAX {
            Some(NewMemoError::LimitsExceeded)
        } else if self.num_recipients == u8::MAX {
            Some(NewMemoError::LimitsExceeded)
        } else {
            None
        }
    }

    /// The memo of an output, as far as the policy writes it.
    pub open spec fn output_memo(&self) -> MemoPayload {
        match (self.sender_cred, self.payment_request_id) {
            (Some(cred), Some(id)) => sender_with_payment_request_id_payload(
                cred.address_hash,
                id,
            ),
            (Some(cred), None) => sender_payload(cred.address_hash),
            (None, _) => unused_memo(),
        }
    }

    /// Why the policy writes no destination memo, if it writes none.
    pub open spec fn change_error(&self, amount: Amount) -> Option<NewMemoError> {
        if self.wrote_destination_memo {
            Some(NewMemoError::MultipleChangeOutputs)
        } else if self.fee.token_id != amount.token_id {
            Some(NewMemoError::MixedTokenIds)
        } else if self.outlay_token_id is Some && self.outlay_token_id.unwrap()
            != self.fee.token_id {
            Some(NewMemoError::MixedTokenIds)
        } else if self.total_outlay + self.fee.value > u64::MAX {
            Some(NewMemoError::LimitsExceeded)
        } else if self.fee.value > MAX_DESTINATION_MEMO_FEE {
            Some(NewMemoError::LimitsExceeded)
        } else {
            None
        }
    }
}

impl MemoBuilder for RTHMemoBuilder {
    /// The fee may change until the destination memo is written.
    open spec fn fee_answer(&self, fee: Amount) -> Result<(), NewMemoError> {
        if self.wrote_destination_memo {
            Err(NewMemoError::FeeAfterChange)
        } else {
            Ok(())
        }
    }

    open spec fn after_fee(&self, fee: Amount) -> Self {
        if self.wrote_destination_memo {
            *self
        } else {
            RTHMemoBuilder { fee, ..*self }
        }
    }

    open spec fn output_answer(
        &self,
        amount: Amount,
        recipient: PublicAddress,
        memo_context: MemoContext,
    ) -> Result<MemoPayload, NewMemoError> {
        match self.output_error(amount) {
            Some(e) => Err(e),
            None => Ok(self.output_memo()),
        }
    }

    /// An output that gets a memo adds to the outlay and to the number of
    /// recipients; one that gets none changes nothing.
    open spec fn after_output(
        &self,
        amount: Amount,
        recipient: PublicAddress,
        memo_context: MemoContext,
    ) -> Self {
        if self.output_error(amount) is None {
            RTHMemoBuilder {
                total_outlay: (self.total_outlay + amount.value) as u64,
                outlay_token_id: Some(amount.token_id),
                num_recipients: (self.num_recipients + 1) as u8,
                last_recipient: memo_context.recipient_address_hash,
                ..*self
            }
        } else {
            *self
        }
    }

    /// An unused memo where destination memos are disabled; else one
    /// destination memo, in the token id of the fee and of the outputs,
    /// with the outlay of the outputs and the fee.
    open spec fn change_answer(
        &self,
        amount: Amount,
        change_destination: ReservedDestination,
        memo_context: MemoContext,
    ) -> Result<MemoPayload, NewMemoError> {
        if !self.destination_memo_enabled {
            Ok(unused_memo())
        } else {
            match self.change_error(amount) {
                Some(e) => Err(e),
                None => Ok(
                    destination_payload(
                        self.last_recipient,
                        self.num_recipients,
                        self.fee.value,
                        (self.total_outlay + self.fee.value) as u64,
                    ),
                ),
            }
        }
    }

    open spec fn after_change(
        &self,
        amount: Amount,
        change_destination: ReservedDestination,
        memo_context: MemoContext,
    ) -> Self {
        if self.destination_memo_enabled && self.change_error(amount) is None {
            RTHMemoBuilder {
                total_outlay: (self.total_outlay + self.fee.value) as u64,
                wrote_destination_memo: true,
                ..*self
            }
        } else {
            *self
        }
    }

    fn set_fee(&mut self, fee: Amount) -> (r: Result<(), NewMemoError>) {
        if self.wrote_destination_memo {
            return Err(NewMemoError::FeeAfterChange);
        }
        self.fee = fee;
        Ok(())
    }

    fn make_memo_for_output(
        &mut self,
        amount: Amount,
        recipient: &PublicAddress,
        memo_context: MemoContext,
    ) -> (r: Result<MemoPayload, NewMemoError>) {
        if self.wrote_destination_memo {
            return Err(NewMemoError::OutputsAfterChange);
        }
        match self.outlay_token_id {
            Some(token_id) => {
                if !(token_id == amount.token_id) {
                    return Err(NewMemoError::MixedTokenIds);
                }
            },
            None => {},
        }
        let total_outlay: u64 = match self.total_outlay.checked_add(amount.value) {
            Some(total_outlay) => total_outlay,
            None => {
                return Err(NewMemoError::LimitsExceeded);
            },
        };
        if self.num_recipients == u8::MAX {
            return Err(NewMemoError::LimitsExceeded);
        }
        let payload: MemoPayload = match self.sender_cred {
            Some(cred) => match self.payment_request_id {
                Some(id) => sender_with_payment_request_id_memo(&cred.address_hash, id),
                None => sender_memo(&cred.address_hash),
            },
            None => MemoPayload { bytes: [0u8; 66] },
        };
        self.total_outlay = total_outlay;
        self.outlay_token_id = Some(amount.token_id);
        self.num_recipients = self.num_recipients + 1;
        self.last_recipient = memo_context.recipient_address_hash;
        Ok(payload)
    }

    fn make_memo_for_change_output(
        &mut self,
        amount: Amount,
        change_destination: &ReservedDestination,
        memo_context: MemoContext,
    ) -> (r: Result<MemoPayload, NewMemoError>) {
        if !self.destination_memo_enabled {
            return Ok(MemoPayload { bytes: [0u8; 66] });
        }
        if self.wrote_destination_memo {
            return Err(NewMemoError::MultipleChangeOutputs);
        }
        if !(self.fee.token_id == amount.token_id) {
            return Err(NewMemoError::MixedTokenIds);
        }
        match self.outlay_token_id {
            Some(token_id) => {
                if !(token_id == self.fee.token_id) {
                    return Err(NewMemoError::MixedTokenIds);
                }
            },
            None => {},
        }
        let total_outlay: u64 = match self.total_outlay.checked_add(self.fee.value) {
            Some(total_outlay) => total_outlay,
            None => {
                return Err(NewMemoError::LimitsExceeded);
            },
        };
        if self.fee.value > MAX_DESTINATION_MEMO_FEE {
            return Err(NewMemoError::LimitsExceeded);
        }
        let payload = destination_memo(
            &self.last_recipient,
            self.num_recipients,
            self.fee.value,
            total_outlay,
        );
        self.total_outlay = total_outlay;
        self.wrote_destination_memo = true;
        Ok(payload)
    }
}

/// Once the destination memo is written, the policy declines every change
/// of the fee, every output and every further change output.
pub proof fn lemma_nothing_follows_the_destination_memo(
    policy: RTHMemoBuilder,
    amount: Amount,
    recipient: PublicAddress,
    change_destination: ReservedDestination,
    memo_context: MemoContext,
)
    requires
        policy.wrote_destination_memo,
    ensures
        policy.fee_answer(amount) == Err::<(), NewMemoError>(NewMemoError::FeeAfterChange),
        policy.after_fee(amount) == policy,
        policy.output_answer(amount, recipient, memo_context) == Err::<MemoPayload, NewMemoError>(
            NewMemoError::OutputsAfterChange,
        ),
        policy.after_output(amount, recipient, memo_context) == policy,
        policy.destination_memo_enabled ==> policy.change_answer(
            amount,
            change_destination,
            memo_context,
        ) == Err::<MemoPayload, NewMemoError>(NewMemoError::MultipleChangeOutputs),
        policy.after_change(amount, change_destination, memo_context) == policy,
{
}

/// The destination memo is written once only: a change output that gets
/// one leaves the policy in the state in which it has been written.
pub proof fn lemma_destination_memo_is_written_once(
    policy: RTHMemoBuilder,
    amount: Amount,
    change_destination: ReservedDestination,
    memo_context: MemoContext,
)
    requires
        policy.destination_memo_enabled,
        policy.change_answer(amount, change_destination, memo_context) is Ok,
    ensures
        policy.after_change(amount, change_destination, memo_context).wrote_destination_memo,
        policy.after_change(amount, change_destination, memo_context).total_outlay
            == policy.total_outlay + policy.fee.value,
{
}

} // verus!
