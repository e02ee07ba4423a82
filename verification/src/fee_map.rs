//! The smallest fee that a node takes, token id by token id.
//!
//! Nodes agree on fees only if their maps are the same, so each names its
//! map by a digest of it. The digest is computed by the caller, over the
//! entries in ascending order of token id; this module keeps it with the
//! map and writes it in hexadecimal.

use std::collections::BTreeMap;
use vstd::prelude::*;
use crate::amount::{TokenId, MINIMUM_FEE, MOB_TOKEN_ID};
use crate::hex_text::{hex_encode, hex_string};

verus! {

/// The fees of a node that was told none: the base token at its smallest
/// fee.
pub open spec fn default_fees() -> Map<u64, u64> {
    Map::<u64, u64>::empty().insert(MOB_TOKEN_ID, MINIMUM_FEE)
}

/// The fees that a node takes once it was told `minimum_fees`.
pub open spec fn fees_or_default_of(minimum_fees: Option<BTreeMap<u64, u64>>) -> Map<u64, u64> {
    match minimum_fees {
        Some(fees) => fees@,
        None => default_fees(),
    }
}

/// A map from token id to smallest fee, with the digest that names it.
pub struct FeeMap {
    /// The smallest fee for each token id that the node takes.
    pub map: BTreeMap<u64, u64>,
    /// The digest of the map, in hexadecimal.
    pub cached_digest: String,
}

impl FeeMap {
    /// The fees that a node takes once it was told `minimum_fees`: those,
    /// or the default fees if it was told none. The caller computes the
    /// digest of this map.
    pub fn fees_or_default(minimum_fees: Option<BTreeMap<u64, u64>>) -> (fees: BTreeMap<u64, u64>)
        ensures
            fees@ == fees_or_default_of(minimum_fees),
    {
        broadcast use vstd::laws_cmp::group_laws_cmp;

        match minimum_fees {
            Some(fees) => fees,
            None => {
                let mut fees: BTreeMap<u64, u64> = BTreeMap::new();
                fees.insert(MOB_TOKEN_ID, MINIMUM_FEE);
                fees
            },
        }
    }

    /// A fee map from its fees and their digest.
    pub fn from_parts(map: BTreeMap<u64, u64>, digest: &[u8; 32]) -> (fee_map: FeeMap)
        ensures
            fee_map.map@ == map@,
            fee_map.cached_digest@ == hex_string(digest@),
    {
        FeeMap { map, cached_digest: hex_encode(digest) }
    }

    /// The digest of the map, in hexadecimal.
    pub fn get_digest_str(&self) -> (digest: String)
        ensures
            digest@ == self.cached_digest@,
    {
        self.cached_digest.clone()
    }

    /// The smallest fee for a token id, or `None` if the node does not take
    /// the token.
    pub fn get_fee_for_token(&self, token_id: &TokenId) -> (fee: Option<u64>)
        ensures
            fee == if self.map@.contains_key(token_id.id) {
                Some(self.map@[token_id.id])
            } else {
                None
            },
    {
        broadcast use vstd::laws_cmp::group_laws_cmp;

        match self.map.get(&token_id.id) {
            Some(fee) => Some(*fee),
            None => None,
        }
    }

    /// Replaces the fees by `minimum_fees`, or by the default fees if there
    /// are none, and the digest by `digest`, which the caller computed of
    /// the new fees.
    pub fn update_or_default(&mut self, minimum_fees: Option<BTreeMap<u64, u64>>, digest: &[u8; 32])
        ensures
            final(self).map@ == fees_or_default_of(minimum_fees),
            final(self).cached_digest@ == hex_string(digest@),
    {
        self.map = FeeMap::fees_or_default(minimum_fees);
        self.cached_digest = hex_encode(digest);
    }
}

} // verus!
