//! The randomness source: a number drawn from a seed, an entropy string and
//! a round.

pub mod contract;
pub mod msg;
