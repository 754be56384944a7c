//! Why the staking agent refuses an operation.

use vstd::prelude::*;

verus! {

/// The reasons for which an operation is refused. A refused operation leaves
/// the agent as it was.
#[derive(Clone, Copy, Debug, PartialEq, Eq, Structural)]
pub enum ContractError {
    /// The caller is not the one the operation is reserved to.
    Unauthorized,
    /// The agent is paused.
    ContractIsPaused,
    /// A message came without the data it must carry.
    NoData,
    /// The asset contract is not the one registered.
    InvalidNftAddress,
    /// A contract that the operation needs has not been registered.
    NotRegistered,
    /// The token has no position in the ledger.
    NotStaked,
    /// The token has a position in the ledger already.
    AlreadyStaked,
    /// The position has been held too long to be given up.
    LockPeriodViolation,
    /// An amount does not fit in 128 bits, or would fall below zero.
    ArithmeticOverflow,
    /// A share was asked of no building.
    DivisionByZero,
    /// The count of staked buildings would fall below zero, or the ledger
    /// and the registry disagree on what a token is.
    InvariantViolation,
}

impl ContractError {
    /// The error in words.
    pub fn message(&self) -> (text: String)
        ensures
            text@ == self.message_text(),
    {
        match self {
            ContractError::Unauthorized => "Unauthorized".to_owned(),
            ContractError::ContractIsPaused => "ContractIsPaused".to_owned(),
            ContractError::NoData => "No data in ReceiveMsg".to_owned(),
            ContractError::InvalidNftAddress => "the nft token contract must have been registered".to_owned(),
            ContractError::NotRegistered => "a contract must have been registered".to_owned(),
            ContractError::NotStaked => "Token has not been staked before".to_owned(),
            ContractError::AlreadyStaked => "token has been staked before".to_owned(),
            ContractError::LockPeriodViolation => "GONNA BE COLD WITHOUT THREE DAY'S CASH".to_owned(),
            ContractError::ArithmeticOverflow => "arithmetic overflow".to_owned(),
            ContractError::DivisionByZero => "division by zero".to_owned(),
            ContractError::InvariantViolation => "invariant violation".to_owned(),
        }
    }

    /// The text that `message` returns.
    pub open spec fn message_text(&self) -> Seq<char> {
        match self {
            ContractError::Unauthorized => "Unauthorized"@,
            ContractError::ContractIsPaused => "ContractIsPaused"@,
            ContractError::NoData => "No data in ReceiveMsg"@,
            ContractError::InvalidNftAddress => "the nft token contract must have been registered"@,
            ContractError::NotRegistered => "a contract must have been registered"@,
            ContractError::NotStaked => "Token has not been staked before"@,
            ContractError::AlreadyStaked => "token has been staked before"@,
            ContractError::LockPeriodViolation => "GONNA BE COLD WITHOUT THREE DAY'S CASH"@,
            ContractError::ArithmeticOverflow => "arithmetic overflow"@,
            ContractError::DivisionByZero => "division by zero"@,
            ContractError::InvariantViolation => "invariant violation"@,
        }
    }
}

} // verus!
