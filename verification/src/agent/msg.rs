//! The messages of the staking agent, and its answers.

use vstd::prelude::*;
use crate::agent::state::HouseBuilding;
use crate::agent::state::HouseInfo;
use crate::agent::state::TypeNFT;

verus! {

/// Sets the agent up. `entropy` is the text that the seed of its random
/// draws is made from.
#[derive(Clone, Debug, PartialEq, Eq)]
pub struct InstantiateMsg {
    pub tax_rate: u8,
    pub amount_tax: u128,
    pub unaccounted_reward: u128,
    pub entropy: String,
}

/// The notice that the asset contract sends when a token is handed to the
/// agent: who handed it over, by canonical address, and which token.
#[derive(Clone, Debug, PartialEq, Eq)]
pub struct ReceiveMsg {
    pub sender: Vec<u8>,
    pub token_id: String,
}

/// A command to the agent.
#[derive(Clone, Debug, PartialEq, Eq)]
pub enum ExecuteMsg {
    /// Stakes the token that was handed over.
    ReceiveNft(ReceiveMsg),
    /// Claims the reward of a token, and with `unstake` gives the position
    /// up.
    Claim { token_id: String, unstake: bool },
}

/// What a token is handed over for.
#[derive(Clone, Copy, Debug, PartialEq, Eq, Structural)]
pub enum Cw721Hook {
    StakeHouse {  },
    StakeBuiliding {  },
}

/// The class under which a token is staked.
#[derive(Clone, Copy, Debug, PartialEq, Eq, Structural)]
pub struct StakeNFT {
    pub type_nft: TypeNFT,
}

/// A question to the agent.
#[derive(Clone, Debug, PartialEq, Eq)]
pub enum QueryMsg {
    /// Asks for the settings.
    GetConfig {  },
    /// Asks for the tax pool.
    GetState {  },
    /// Asks for the position kept under the key `account`.
    GetStakedInfo { account: String },
    /// Asks for the positions that `account` owns.
    GetStakedAccountInfo { account: String },
}

/// The settings of the agent, once every contract is registered.
#[derive(Clone, Debug, PartialEq, Eq)]
pub struct ConfigResponse {
    pub owner: Vec<u8>,
    pub cw721_addr: Vec<u8>,
    pub cw20_addr: Vec<u8>,
    pub minter: Vec<u8>,
    pub rand_addr: Vec<u8>,
}

/// The tax pool.
#[derive(Clone, Copy, Debug, PartialEq, Eq, Structural)]
pub struct StateResponse {
    pub tax_rate: u8,
    pub amount_tax: u128,
    pub unaccounted_reward: u128,
    pub total_building_staked: u128,
}

/// One position, with its owner by canonical address.
#[derive(Clone, Debug, PartialEq, Eq)]
pub struct StakedInfoResponse {
    pub token_id: String,
    pub owner: Vec<u8>,
    pub value: u128,
    pub type_nft: TypeNFT,
    pub ternant_rating: u8,
}

/// The block in which an operation runs: its height, and its time in
/// seconds.
#[derive(Clone, Copy, Debug, PartialEq, Eq, Structural)]
pub struct Block {
    pub height: u64,
    pub time: u64,
}

/// Who asks for an operation: the address as it is written, and its
/// canonical form.
#[derive(Clone, Debug, PartialEq, Eq)]
pub struct Caller {
    pub address: String,
    pub canonical: Vec<u8>,
}

/// What the asset registry says of a token: its owner by canonical address,
/// what it is, and what it earns and risks.
#[derive(Clone, Debug, PartialEq, Eq)]
pub struct OracleReport {
    pub owner: Vec<u8>,
    pub data: HouseBuilding,
    pub info: HouseInfo,
}

/// What the agent answers to a `QueryMsg`.
#[derive(Clone, Debug, PartialEq, Eq)]
pub enum QueryAnswer {
    Config(ConfigResponse),
    State(StateResponse),
    StakedInfo(StakedInfoResponse),
    StakedAccountInfo(Vec<StakedInfoResponse>),
}

} // verus!
