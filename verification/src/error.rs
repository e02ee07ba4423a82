//! The ways in which building a transaction fails.

use vstd::prelude::*;
use crate::amount::TokenId;

verus! {

/// Why a memo policy declined.
#[derive(Clone, Copy, Debug, PartialEq, Eq, Structural)]
pub enum NewMemoError {
    /// A value does not fit the memo's field for it.
    LimitsExceeded,
    /// A second change output was asked for.
    MultipleChangeOutputs,
    /// An output was asked for after the change output.
    OutputsAfterChange,
    /// The fee was changed after the change output.
    FeeAfterChange,
    /// The recipient is not one that the policy pays.
    InvalidRecipient,
    /// The policy pays one output only.
    MultipleOutputs,
    /// The change output came before the output that the policy pays.
    MissingOutput,
    /// The policy moves one token id only.
    MixedTokenIds,
}

/// Why no fog public key was found for an address.
#[derive(Clone, Copy, Debug, PartialEq, Eq, Structural)]
pub enum FogPubkeyError {
    /// The address names no fog report server.
    NoFogReportUrl,
    /// No validated report was fetched from the address's server.
    NoMatchingReportResponse,
    /// The server's reports hold none with the address's report id.
    NoMatchingReportId,
}

/// Why an output could not be made.
#[derive(Clone, Copy, Debug, PartialEq, Eq, Structural)]
pub enum NewTxError {
    /// The amount could not be masked.
    Amount,
    /// The memo policy declined to author the output's memo.
    Memo(NewMemoError),
}

/// Why a pre-signed input was not accepted.
#[derive(Clone, Copy, Debug, PartialEq, Eq, Structural)]
pub enum SignedContingentInputError {
    /// The input's rules require a number of outputs other than the number
    /// of amounts that came with it.
    WrongNumberOfRequiredOutputAmounts,
}

/// Why a transaction could not be built.
#[derive(Clone, Copy, Debug, PartialEq, Eq)]
pub enum TxBuilderError {
    /// The signer could not sign, most often because the inputs do not add
    /// up to the outputs and the fee.
    RingSignatureFailed,
    /// A sealed output does not open to the amount it was planned for.
    BadAmount,
    /// The inputs' rings differ in size; or every input is fit to enter and
    /// the rings are empty; or the index of the spent output lies beyond its
    /// ring.
    InvalidRingSize,
    /// The transaction has no input.
    NoInputs,
    /// The fog public key of an address could not be resolved.
    FogPublicKey(FogPubkeyError),
    /// The memo policy declined the fee.
    Memo(NewMemoError),
    /// An output could not be made.
    NewTx(NewTxError),
    /// The block version is older than the oldest supported one, given second.
    BlockVersionTooOld(u32, u32),
    /// The block version is newer than the newest supported one, given second.
    BlockVersionTooNew(u32, u32),
    /// The block version, given first, lacks the feature named second.
    FeatureNotSupportedAtBlockVersion(u32, &'static str),
    /// The block version allows one token id per transaction; the fee's comes
    /// first, the offending one second.
    MixedTransactionsNotAllowed(TokenId, TokenId),
    /// The block version does not allow pre-signed inputs.
    SignedInputRulesNotAllowed,
    /// An input has a ring member without a membership proof, or a proof
    /// without a ring member.
    MissingMembershipProofs,
}

} // verus!
