//! The tombstone block of a transaction and the limit that fog keys put on it.

use vstd::prelude::*;

verus! {

pub open spec fn min_u64(a: u64, b: u64) -> u64 {
    if a <= b {
        a
    } else {
        b
    }
}

/// The smaller of two block indices.
pub fn min_block(a: u64, b: u64) -> (m: u64)
    ensures
        m == min_u64(a, b),
{
    if a <= b {
        a
    } else {
        b
    }
}

/// The block after which a transaction can no longer enter the ledger, and
/// the latest block that the fog keys and input rules used so far allow.
#[derive(Clone, Copy, Debug, PartialEq, Eq, Structural)]
pub struct TombstoneState {
    pub tombstone_block: u64,
    pub fog_tombstone_block_limit: u64,
}

impl TombstoneState {
    /// The state in which nothing limits the tombstone block yet.
    pub open spec fn unlimited() -> TombstoneState {
        TombstoneState { tombstone_block: u64::MAX, fog_tombstone_block_limit: u64::MAX }
    }

    /// The state after the user asks for `tombstone_block`.
    pub open spec fn requested(self, tombstone_block: u64) -> TombstoneState {
        TombstoneState {
            tombstone_block: min_u64(tombstone_block, self.fog_tombstone_block_limit),
            fog_tombstone_block_limit: self.fog_tombstone_block_limit,
        }
    }

    /// The state after something that expires at `pubkey_expiry` is used.
    pub open spec fn limited(self, pubkey_expiry: u64) -> TombstoneState {
        let limit = min_u64(self.fog_tombstone_block_limit, pubkey_expiry);
        TombstoneState {
            tombstone_block: min_u64(limit, self.tombstone_block),
            fog_tombstone_block_limit: limit,
        }
    }

    /// The tombstone block does not exceed the limit.
    pub open spec fn is_clamped(self) -> bool {
        self.tombstone_block <= self.fog_tombstone_block_limit
    }

    pub fn new() -> (s: TombstoneState)
        ensures
            s == TombstoneState::unlimited(),
    {
        TombstoneState { tombstone_block: u64::MAX, fog_tombstone_block_limit: u64::MAX }
    }

    /// Sets the tombstone block to the requested one or to the limit,
    /// whichever is smaller, and returns what it was set to.
    pub fn set_tombstone_block(&mut self, tombstone_block: u64) -> (effective: u64)
        ensures
            *final(self) == old(self).requested(tombstone_block),
            effective == final(self).tombstone_block,
    {
        self.tombstone_block = min_block(tombstone_block, self.fog_tombstone_block_limit);
        self.tombstone_block
    }

    /// Lowers the limit to `pubkey_expiry` if that is smaller, and the
    /// tombstone block to the new limit if it exceeds it.
    pub fn impose_tombstone_block_limit(&mut self, pubkey_expiry: u64)
        ensures
            *final(self) == old(self).limited(pubkey_expiry),
    {
        self.fog_tombstone_block_limit = min_block(self.fog_tombstone_block_limit, pubkey_expiry);
        self.tombstone_block = min_block(self.fog_tombstone_block_limit, self.tombstone_block);
    }
}

/// The limit only ever tightens, and after either step the tombstone block
/// lies within it.
pub proof fn lemma_limit_only_tightens(s: TombstoneState, block: u64)
    ensures
        s.requested(block).fog_tombstone_block_limit == s.fog_tombstone_block_limit,
        s.limited(block).fog_tombstone_block_limit <= s.fog_tombstone_block_limit,
        s.limited(block).fog_tombstone_block_limit <= block,
        s.requested(block).is_clamped(),
        s.limited(block).is_clamped(),
        s.is_clamped() ==> s.limited(block).tombstone_block <= s.tombstone_block,
{
}

/// The tombstone block is the smaller of what the user asked for and the
/// limit, whichever of the two came first.
pub proof fn lemma_tombstone_is_minimum(requested: u64, pubkey_expiry: u64)
    ensures
        TombstoneState::unlimited().limited(pubkey_expiry).requested(requested).tombstone_block
            == min_u64(requested, pubkey_expiry),
        TombstoneState::unlimited().requested(requested).limited(pubkey_expiry).tombstone_block
            == min_u64(requested, pubkey_expiry),
{
}

} // verus!
