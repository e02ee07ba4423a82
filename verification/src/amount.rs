//! Token ids and amounts.

use vstd::prelude::*;

verus! {

/// The token id of the base token.
pub const MOB_TOKEN_ID: u64 = 0;

/// The smallest fee in the base token: 400 micro MOB.
pub const MINIMUM_FEE: u64 = 400_000_000;

/// Selects the pair of Pedersen generators that an amount is committed with.
#[derive(Clone, Copy, Debug, PartialEq, Eq, Structural, Hash, PartialOrd, Ord)]
pub struct TokenId {
    pub id: u64,
}

impl TokenId {
    pub fn new(id: u64) -> (t: TokenId)
        ensures
            t.id == id,
    {
        TokenId { id }
    }

    /// The base token.
    pub fn mob() -> (t: TokenId)
        ensures
            t.id == MOB_TOKEN_ID,
    {
        TokenId { id: MOB_TOKEN_ID }
    }
}

/// A value in the smallest denomination of a token.
#[derive(Clone, Copy, Debug, PartialEq, Eq, Structural, Hash)]
pub struct Amount {
    pub value: u64,
    pub token_id: TokenId,
}

impl Amount {
    pub fn new(value: u64, token_id: TokenId) -> (a: Amount)
        ensures
            a.value == value,
            a.token_id == token_id,
    {
        Amount { value, token_id }
    }
}

} // verus!
