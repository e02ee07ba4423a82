//! Block versions and the features that each of them introduced.

use vstd::prelude::*;

verus! {

/// The newest block version that this library knows.
pub const MAX_BLOCK_VERSION: u32 = 3;

/// The version of the rules under which a block is formed.
///
/// Every feature is introduced at some version and is kept by all later ones.
#[derive(Clone, Copy, Debug, PartialEq, Eq, Structural)]
pub struct BlockVersion {
    pub number: u32,
}

impl BlockVersion {
    /// Whether the version lies in the supported range.
    pub open spec fn is_supported(self) -> bool {
        self.number <= MAX_BLOCK_VERSION
    }

    pub open spec fn spec_e_memo_feature_is_supported(self) -> bool {
        self.number >= 1
    }

    pub open spec fn spec_masked_token_id_feature_is_supported(self) -> bool {
        self.number >= 2
    }

    pub open spec fn spec_mixed_transactions_are_supported(self) -> bool {
        self.number >= 3
    }

    pub open spec fn spec_signed_input_rules_are_supported(self) -> bool {
        self.number >= 3
    }

    /// A block version from its number, with no range check.
    pub fn new(number: u32) -> (v: BlockVersion)
        ensures
            v.number == number,
    {
        BlockVersion { number }
    }

    /// A block version from its number; `None` when the number is newer than
    /// the newest supported version.
    pub fn try_from_u32(number: u32) -> (v: Option<BlockVersion>)
        ensures
            v.is_some() == (number <= MAX_BLOCK_VERSION),
            v.is_some() ==> v.unwrap().number == number,
    {
        if number <= MAX_BLOCK_VERSION {
            Some(BlockVersion { number })
        } else {
            None
        }
    }

    /// Outputs may carry an encrypted memo.
    #[verifier::when_used_as_spec(spec_e_memo_feature_is_supported)]
    pub fn e_memo_feature_is_supported(self) -> (b: bool)
        ensures
            b == self.spec_e_memo_feature_is_supported(),
    {
        self.number >= 1
    }

    /// Amounts carry a masked token id.
    #[verifier::when_used_as_spec(spec_masked_token_id_feature_is_supported)]
    pub fn masked_token_id_feature_is_supported(self) -> (b: bool)
        ensures
            b == self.spec_masked_token_id_feature_is_supported(),
    {
        self.number >= 2
    }

    /// One transaction may move several token ids.
    #[verifier::when_used_as_spec(spec_mixed_transactions_are_supported)]
    pub fn mixed_transactions_are_supported(self) -> (b: bool)
        ensures
            b == self.spec_mixed_transactions_are_supported(),
    {
        self.number >= 3
    }

    /// Inputs may be signed beforehand and carry rules.
    #[verifier::when_used_as_spec(spec_signed_input_rules_are_supported)]
    pub fn signed_input_rules_are_supported(self) -> (b: bool)
        ensures
            b == self.spec_signed_input_rules_are_supported(),
    {
        self.number >= 3
    }
}

/// A feature that a version supports is supported by every later version.
pub proof fn lemma_features_are_never_revoked(older: BlockVersion, newer: BlockVersion)
    requires
        older.number <= newer.number,
    ensures
        older.e_memo_feature_is_supported() ==> newer.e_memo_feature_is_supported(),
        older.masked_token_id_feature_is_supported()
            ==> newer.masked_token_id_feature_is_supported(),
        older.mixed_transactions_are_supported() ==> newer.mixed_transactions_are_supported(),
        older.signed_input_rules_are_supported() ==> newer.signed_input_rules_are_supported(),
{
}

} // verus!
