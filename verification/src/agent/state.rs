//! What the staking agent keeps: its settings, the tax pool, and one
//! position for each staked token.

use vstd::prelude::*;
use crate::bytes::copy_bytes;

pub use crate::nft::state::HouseBuilding;
pub use crate::nft::state::HouseInfo;

verus! {

/// The two classes of assets.
#[derive(Clone, Copy, Debug, PartialEq, Eq, Structural)]
pub enum TypeNFT {
    House,
    Building,
}

/// The owner of the agent and the contracts it works with, each by its
/// canonical address. A contract is `None` until it is registered.
#[derive(Clone, Debug, PartialEq, Eq)]
pub struct Config {
    pub owner: Vec<u8>,
    pub cw721_addr: Option<Vec<u8>>,
    pub cw20_addr: Option<Vec<u8>>,
    pub minter: Option<Vec<u8>>,
    pub rand_addr: Option<Vec<u8>>,
}

/// The position of one staked token. `value` is the baseline that the next
/// reward is counted from: for a house the time of staking or of the last
/// claim, in seconds; for a building the rate of the tax pool at that time.
#[derive(Clone, Debug, PartialEq, Eq)]
pub struct StakedAccountInfo {
    pub token_id: String,
    pub owner: Vec<u8>,
    pub value: u128,
    pub type_nft: TypeNFT,
    pub ternant_rating: u8,
}

/// A position as a mathematical value.
pub struct PositionView {
    pub token_id: Seq<char>,
    pub owner: Seq<u8>,
    pub value: u128,
    pub type_nft: TypeNFT,
    pub ternant_rating: u8,
}

impl View for StakedAccountInfo {
    type V = PositionView;

    open spec fn view(&self) -> PositionView {
        PositionView {
            token_id: self.token_id@,
            owner: self.owner@,
            value: self.value,
            type_nft: self.type_nft,
            ternant_rating: self.ternant_rating,
        }
    }
}

impl StakedAccountInfo {
    /// A copy of the position.
    pub fn duplicate(&self) -> (copy: Self)
        ensures
            copy@ == self@,
    {
        StakedAccountInfo {
            token_id: self.token_id.clone(),
            owner: copy_bytes(&self.owner),
            value: self.value,
            type_nft: self.type_nft,
            ternant_rating: self.ternant_rating,
        }
    }
}

/// The tax pool. `amount_tax` is the rate: what one building staked since
/// the beginning would have earned. `unaccounted_reward` is tax that came in
/// while no building was staked.
#[derive(Clone, Copy, Debug, PartialEq, Eq, Structural)]
pub struct State {
    pub tax_rate: u8,
    pub amount_tax: u128,
    pub unaccounted_reward: u128,
    pub total_building_staked: u128,
}

} // verus!
