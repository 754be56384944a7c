//! The messages of the randomness source.

use vstd::prelude::*;

verus! {

/// An amount of one kind of coin.
#[derive(Clone, Debug, PartialEq, Eq)]
pub struct Coin {
    pub denom: String,
    pub amount: u128,
}

/// Who sends a message, and the coins sent with it.
#[derive(Clone, Debug, PartialEq, Eq)]
pub struct MessageInfo {
    pub sender: String,
    pub funds: Vec<Coin>,
}

/// Sets the randomness source up for its owner.
#[derive(Clone, Debug)]
pub struct InstantiateMsg {
    pub owner: String,
}

/// A question to the randomness source.
#[derive(Clone, Copy, Debug)]
pub enum QueryMsg<'a> {
    /// Asks for the number of `round`, drawn from `seed` and `entropy`.
    Random { seed: &'a [u8], entropy: &'a [u8], round: u64 },
    /// Asks who owns the source.
    GetOwner {  },
}

/// Thirty-two random bytes.
#[derive(Clone, Copy, Debug)]
pub struct RandResponse {
    pub bytes: [u8; 32],
}

/// What the randomness source answers to a `QueryMsg`.
#[derive(Clone, Debug)]
pub enum QueryAnswer {
    /// The number drawn.
    Random(u64),
    /// The owner of the source.
    Owner(String),
}

} // verus!
