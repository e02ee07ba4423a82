//! Memos and the policies that author them.
//!
//! A transaction builder tells its memo policy the fee, then asks it for a
//! memo for every output and change output in the order in which they are
//! added. A policy may keep track of what it has seen and decline.

use vstd::prelude::*;
use crate::address::{PublicAddress, ReservedDestination, ShortAddressHash};
use crate::amount::Amount;
use crate::error::NewMemoError;
use crate::keys::CompressedRistrettoPublic;

verus! {

/// A memo in the clear: two bytes that name its kind, then 64 bytes of data.
#[derive(Clone, Copy, Debug, PartialEq, Eq)]
pub struct MemoPayload {
    pub bytes: [u8; 66],
}

/// What a policy is told of the output that its memo is for.
#[derive(Clone, Copy, Debug, PartialEq, Eq)]
pub struct MemoContext {
    /// The public key of the output.
    pub tx_public_key: CompressedRistrettoPublic,
    /// The hash of the address that owns the output.
    pub recipient_address_hash: ShortAddressHash,
}

/// A policy that authors the memos of a transaction.
///
/// What each method returns, and the state in which it leaves the policy, is
/// a function of the policy's state and the arguments; the spec functions
/// name both, so that a builder can say what it does with any policy.
pub trait MemoBuilder: Sized {
    /// What `set_fee` returns.
    spec fn fee_answer(&self, fee: Amount) -> Result<(), NewMemoError>;

    /// The policy after `set_fee`.
    spec fn after_fee(&self, fee: Amount) -> Self;

    /// What `make_memo_for_output` returns.
    spec fn output_answer(
        &self,
        amount: Amount,
        recipient: PublicAddress,
        memo_context: MemoContext,
    ) -> Result<MemoPayload, NewMemoError>;

    /// The policy after `make_memo_for_output`.
    spec fn after_output(
        &self,
        amount: Amount,
        recipient: PublicAddress,
        memo_context: MemoContext,
    ) -> Self;

    /// What `make_memo_for_change_output` returns.
    spec fn change_answer(
        &self,
        amount: Amount,
        change_destination: ReservedDestination,
        memo_context: MemoContext,
    ) -> Result<MemoPayload, NewMemoError>;

    /// The policy after `make_memo_for_change_output`.
    spec fn after_change(
        &self,
        amount: Amount,
        change_destination: ReservedDestination,
        memo_context: MemoContext,
    ) -> Self;

    /// Tells the policy the fee of the transaction.
    fn set_fee(&mut self, fee: Amount) -> (r: Result<(), NewMemoError>)
        ensures
            r == old(self).fee_answer(fee),
            *final(self) == old(self).after_fee(fee),
    ;

    /// Authors the memo of an output that pays `recipient`.
    fn make_memo_for_output(
        &mut self,
        amount: Amount,
        recipient: &PublicAddress,
        memo_context: MemoContext,
    ) -> (r: Result<MemoPayload, NewMemoError>)
        ensures
            r == old(self).output_answer(amount, *recipient, memo_context),
            *final(self) == old(self).after_output(amount, *recipient, memo_context),
    ;

    /// Authors the memo of the change output.
    fn make_memo_for_change_output(
        &mut self,
        amount: Amount,
        change_destination: &ReservedDestination,
        memo_context: MemoContext,
    ) -> (r: Result<MemoPayload, NewMemoError>)
        ensures
            r == old(self).change_answer(amount, *change_destination, memo_context),
            *final(self) == old(self).after_change(amount, *change_destination, memo_context),
    ;
}

/// The payload of a memo that says nothing: 66 zero bytes.
pub open spec fn unused_memo() -> MemoPayload {
    MemoPayload { bytes: vstd::array::spec_array_fill_for_copy_type::<u8, 66>(0u8) }
}

/// The policy that attaches an unused memo to every output.
#[derive(Clone, Copy, Debug, PartialEq, Eq)]
pub struct EmptyMemoBuilder;

impl MemoBuilder for EmptyMemoBuilder {
    open spec fn fee_answer(&self, fee: Amount) -> Result<(), NewMemoError> {
        Ok(())
    }

    open spec fn after_fee(&self, fee: Amount) -> Self {
        *self
    }

    open spec fn output_answer(
        &self,
        amount: Amount,
        recipient: PublicAddress,
        memo_context: MemoContext,
    ) -> Result<MemoPayload, NewMemoError> {
        Ok(unused_memo())
    }

    open spec fn after_output(
        &self,
        amount: Amount,
        recipient: PublicAddress,
        memo_context: MemoContext,
    ) -> Self {
        *self
    }

    open spec fn change_answer(
        &self,
        amount: Amount,
        change_destination: ReservedDestination,
        memo_context: MemoContext,
    ) -> Result<MemoPayload, NewMemoError> {
        Ok(unused_memo())
    }

    open spec fn after_change(
        &self,
        amount: Amount,
        change_destination: ReservedDestination,
        memo_context: MemoContext,
    ) -> Self {
        *self
    }

    fn set_fee(&mut self, fee: Amount) -> (r: Result<(), NewMemoError>) {
        Ok(())
    }

    fn make_memo_for_output(
        &mut self,
        amount: Amount,
        recipient: &PublicAddress,
        memo_context: MemoContext,
    ) -> (r: Result<MemoPayload, NewMemoError>) {
        Ok(MemoPayload { bytes: [0u8; 66] })
    }

    fn make_memo_for_change_output(
        &mut self,
        amount: Amount,
        change_destination: &ReservedDestination,
        memo_context: MemoContext,
    ) -> (r: Result<MemoPayload, NewMemoError>) {
        Ok(MemoPayload { bytes: [0u8; 66] })
    }
}

} // verus!
