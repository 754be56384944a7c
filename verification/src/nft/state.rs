//! What the asset registry keeps.

use vstd::prelude::*;

verus! {

/// The settings of the asset registry.
#[derive(Clone, Debug, PartialEq, Eq)]
pub struct Config {
    pub owner: String,
    pub base_token_uri: String,
    pub max_tokens: u32,
    pub max_tokens_per_batch_mint: u32,
    pub max_tokens_per_batch_transfer: u32,
    pub cw721_code_id: u64,
    pub cw721_address: Option<String>,
    pub rand_address: Option<String>,
    pub name: String,
    pub symbol: String,
    pub house_infos: Vec<HouseInfo>,
    pub rarities: Vec<Vec<u128>>,
    pub aliases: Vec<Vec<u128>>,
    pub house_max_tokens: u128,
    pub house_paid_tokens: u128,
    pub house_minted: u128,
    pub house_cost_mint: u128,
    pub building_max_tokens: u128,
    pub building_paid_tokens: u128,
    pub building_minted: u128,
    pub building_cost_mint: u128,
}

/// What the registry says of a token: a house or a building, and which.
#[derive(Clone, Copy, Debug, PartialEq, Eq)]
pub struct HouseBuilding {
    pub is_house: bool,
    pub model: u8,
    pub image_id: u128,
}

/// What an asset earns a day, and the share of a reward, in hundredths,
/// that damage to it takes.
#[derive(Clone, Copy, Debug, PartialEq, Eq)]
pub struct HouseInfo {
    pub model: Model,
    pub income_per_day: u128,
    pub property_damage: u128,
}

/// The models of houses, and the one of buildings.
#[derive(Clone, Copy, Debug, PartialEq, Eq, Structural)]
pub enum Model {
    TREEHOUSE,
    TRAILERHOUSE,
    CABIN,
    ONESTORYHOUSE,
    TWOSTORYHOUSE,
    MANSION,
    PALACE,
    UTILITYBUILDING,
}

/// What a draw from the randomness source is asked with.
#[derive(Clone, Copy, Debug)]
pub struct RandomData {
    pub seed: u8,
    pub entropy: u8,
    pub round: u64,
}

} // verus!
