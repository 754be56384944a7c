//! A staking ledger for two classes of non-fungible assets, houses and
//! buildings, with the reward and tax rules that settle a claim, and the
//! randomness source that the tenant ratings are drawn from.

pub mod agent;
pub mod bytes;
pub mod digest;
pub mod keystream;
pub mod nft;
pub mod random;
pub mod response;
