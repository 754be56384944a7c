//! The staking agent: the ledger of staked assets, the tax pool shared by
//! the buildings, and the rules by which a claim is settled.

pub mod claim;
pub mod contract;
pub mod error;
pub mod laws;
pub mod ledger;
pub mod msg;
pub mod pool;
pub mod query;
pub mod rating;
pub mod settle;
pub mod stake;
pub mod state;
