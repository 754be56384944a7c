//! How a claim is settled: what a position has earned, the tax on it, the
//! damage that a roll may bring, and the holding period.

use vstd::prelude::*;
use crate::agent::error::ContractError;
use crate::agent::pool::{
    adjust_building_count,
    after_damage,
    count_adjusted,
    pay_building_tax,
    property_damage_tax,
    tax_paid,
};
use crate::agent::rating::{damage_applies, damage_triggered};
use crate::agent::state::{HouseInfo, PositionView, StakedAccountInfo, State, TypeNFT};

verus! {

/// The holding period, in seconds: three days.
pub const MINIMUM_TO_EXIT: u128 = 259200;

/// The seconds of a day.
pub const ONE_DAY: u128 = 86400;

/// The share of each reward, in hundredths, that goes to the tax pool.
pub const BUILDING_CLAIM_TAX_PERCENTAGE: u128 = 25;

/// How a claim is settled: the tax pool after it, what is paid out, and the
/// baseline that the position goes on from.
#[derive(Clone, Copy, Debug, PartialEq, Eq, Structural)]
pub struct Settlement {
    pub pool: State,
    pub payout: u128,
    pub baseline: u128,
}

/// Whether a position may be given up at the time `now`: only while less
/// than the holding period has gone by since its baseline, and no longer
/// once the period is over. The baseline is read as a time whatever the
/// class of the position, so that a building can be given up only while
/// the time is close above the rate that it was staked under. A baseline
/// after `now` is an error.
pub open spec fn exit_guard(position: PositionView, now: u64) -> Result<(), ContractError> {
    if now < position.value {
        Err(ContractError::ArithmeticOverflow)
    } else if now - position.value >= MINIMUM_TO_EXIT {
        Err(ContractError::LockPeriodViolation)
    } else {
        Ok(())
    }
}

/// The reward of a position before tax and damage. A house earns
/// `income_per_day` for each day since its baseline, counted by the second
/// and rounded down. A building earns what the rate has grown by since its
/// baseline.
pub open spec fn gross_reward(
    position: PositionView,
    rate: u128,
    now: u64,
    income_per_day: u128,
) -> Result<u128, ContractError> {
    match position.type_nft {
        TypeNFT::House => {
            if now < position.value {
                Err(ContractError::ArithmeticOverflow)
            } else if (now - position.value) * income_per_day > u128::MAX {
                Err(ContractError::ArithmeticOverflow)
            } else {
                Ok(((now - position.value) * income_per_day / (ONE_DAY as int)) as u128)
            }
        },
        TypeNFT::Building => {
            if rate < position.value {
                Err(ContractError::ArithmeticOverflow)
            } else {
                Ok((rate - position.value) as u128)
            }
        },
    }
}

/// The tax on a reward of `gross`: twenty-five hundredths, rounded down.
pub open spec fn claim_tax(gross: u128) -> Result<u128, ContractError> {
    if gross * BUILDING_CLAIM_TAX_PERCENTAGE > u128::MAX {
        Err(ContractError::ArithmeticOverflow)
    } else {
        Ok((gross * BUILDING_CLAIM_TAX_PERCENTAGE / 100) as u128)
    }
}

/// What is left of `amount` after a roll for damage under `rating`.
pub open spec fn after_roll(rating: u8, roll: u64, amount: u128, property_damage: u128) -> Result<
    u128,
    ContractError,
> {
    if damage_applies(rating, roll) {
        after_damage(amount, property_damage)
    } else {
        Ok(amount)
    }
}

/// The baseline that a position goes on from after a claim: the time of the
/// claim for a house, the rate after the claim for a building.
pub open spec fn next_baseline(type_nft: TypeNFT, now: u64, rate: u128) -> u128 {
    match type_nft {
        TypeNFT::House => now as u128,
        TypeNFT::Building => rate,
    }
}

/// A claim that keeps the position. The tax on the reward is paid into the
/// pool, damage takes its share of the rest where `claim_roll` brings it,
/// and the position goes on from a new baseline.
pub open spec fn settled_claim(
    position: PositionView,
    pool: State,
    info: HouseInfo,
    now: u64,
    claim_roll: u64,
) -> Result<Settlement, ContractError> {
    match gross_reward(position, pool.amount_tax, now, info.income_per_day) {
        Err(error) => Err(error),
        Ok(gross) => match claim_tax(gross) {
            Err(error) => Err(error),
            Ok(tax) => match tax_paid(pool, tax) {
                Err(error) => Err(error),
                Ok(taxed) => match after_roll(
                    position.ternant_rating,
                    claim_roll,
                    (gross - tax) as u128,
                    info.property_damage,
                ) {
                    Err(error) => Err(error),
                    Ok(net) => Ok(
                        Settlement {
                            pool: taxed,
                            payout: net,
                            baseline: next_baseline(position.type_nft, now, taxed.amount_tax),
                        },
                    ),
                },
            },
        },
    }
}

/// The pool after a position of class `type_nft` has left it: a building
/// is counted out.
pub open spec fn counted_out(pool: State, type_nft: TypeNFT) -> Result<State, ContractError> {
    match type_nft {
        TypeNFT::House => Ok(pool),
        TypeNFT::Building => count_adjusted(pool, -1i128),
    }
}

/// A claim that gives the position up. It is allowed only under
/// `exit_guard`. The reward is settled as for a claim that keeps the
/// position; then, where `exit_roll` brings damage, all that is left of it
/// goes to the tax pool and nothing is paid out. A building is counted out
/// of the pool last.
pub open spec fn settled_exit(
    position: PositionView,
    pool: State,
    info: HouseInfo,
    now: u64,
    claim_roll: u64,
    exit_roll: u64,
) -> Result<Settlement, ContractError> {
    match exit_guard(position, now) {
        Err(error) => Err(error),
        Ok(_) => match settled_claim(position, pool, info, now, claim_roll) {
            Err(error) => Err(error),
            Ok(claim) => if damage_applies(position.ternant_rating, exit_roll) {
                match tax_paid(claim.pool, claim.payout) {
                    Err(error) => Err(error),
                    Ok(forfeited) => match counted_out(forfeited, position.type_nft) {
                        Err(error) => Err(error),
                        Ok(left) => Ok(
                            Settlement { pool: left, payout: 0, baseline: position.value },
                        ),
                    },
                }
            } else {
                match counted_out(claim.pool, position.type_nft) {
                    Err(error) => Err(error),
                    Ok(left) => Ok(
                        Settlement { pool: left, payout: claim.payout, baseline: position.value },
                    ),
                }
            },
        },
    }
}

/// How a claim on `position` is settled, with or without giving it up.
pub open spec fn settled(
    position: PositionView,
    pool: State,
    info: HouseInfo,
    now: u64,
    claim_roll: u64,
    exit_roll: u64,
    unstake: bool,
) -> Result<Settlement, ContractError> {
    if unstake {
        settled_exit(position, pool, info, now, claim_roll, exit_roll)
    } else {
        settled_claim(position, pool, info, now, claim_roll)
    }
}

/// The reward of `position` before tax and damage, at the time `now` and
/// under the rate `rate`.
pub fn reward_owed(
    position: &StakedAccountInfo,
    rate: u128,
    now: u64,
    income_per_day: u128,
) -> (result: Result<u128, ContractError>)
    ensures
        result == gross_reward(position@, rate, now, income_per_day),
{
    match position.type_nft {
        TypeNFT::House => {
            let elapsed = match (now as u128).checked_sub(position.value) {
                Some(elapsed) => elapsed,
                None => {
                    return Err(ContractError::ArithmeticOverflow);
                },
            };
            match elapsed.checked_mul(income_per_day) {
                Some(earned) => Ok(earned / ONE_DAY),
                None => Err(ContractError::ArithmeticOverflow),
            }
        },
        TypeNFT::Building => {
            match rate.checked_sub(position.value) {
                Some(earned) => Ok(earned),
                None => Err(ContractError::ArithmeticOverflow),
            }
        },
    }
}

/// Settles a claim on `position` against the tax pool `pool`, with the two
/// rolls for damage given. Nothing is changed: the settlement says what is
/// to be.
pub fn settle(
    position: &StakedAccountInfo,
    pool: &State,
    info: &HouseInfo,
    now: u64,
    claim_roll: u64,
    exit_roll: u64,
    unstake: bool,
) -> (result: Result<Settlement, ContractError>)
    ensures
        result == settled(position@, *pool, *info, now, claim_roll, exit_roll, unstake),
{
    if unstake {
        let elapsed = match (now as u128).checked_sub(position.value) {
            Some(elapsed) => elapsed,
            None => {
                return Err(ContractError::ArithmeticOverflow);
            },
        };
        if elapsed >= MINIMUM_TO_EXIT {
            return Err(ContractError::LockPeriodViolation);
        }
    }
    let gross = match reward_owed(position, pool.amount_tax, now, info.income_per_day) {
        Ok(gross) => gross,
        Err(error) => {
            return Err(error);
        },
    };
    let tax = match gross.checked_mul(BUILDING_CLAIM_TAX_PERCENTAGE) {
        Some(product) => product / 100,
        None => {
            return Err(ContractError::ArithmeticOverflow);
        },
    };
    let mut after = *pool;
    match pay_building_tax(&mut after, tax) {
        Ok(_) => {},
        Err(error) => {
            return Err(error);
        },
    }
    let mut owed = gross - tax;
    if damage_triggered(position.ternant_rating, claim_roll) {
        owed = match property_damage_tax(owed, info.property_damage) {
            Ok(left) => left,
            Err(error) => {
                return Err(error);
            },
        };
    }
    if !unstake {
        let baseline = match position.type_nft {
            TypeNFT::House => now as u128,
            TypeNFT::Building => after.amount_tax,
        };
        return Ok(Settlement { pool: after, payout: owed, baseline });
    }
    if damage_triggered(position.ternant_rating, exit_roll) {
        match pay_building_tax(&mut after, owed) {
            Ok(_) => {},
            Err(error) => {
                return Err(error);
            },
        }
        owed = 0;
    }
    match position.type_nft {
        TypeNFT::House => {},
        TypeNFT::Building => {
            match adjust_building_count(&mut after, -1) {
                Ok(_) => {},
                Err(error) => {
                    return Err(error);
                },
            }
        },
    }
    Ok(Settlement { pool: after, payout: owed, baseline: position.value })
}

/// A settlement keeps the tax rate of the pool, and its count of buildings
/// but for a building that is given up.
pub proof fn lemma_settled_count(
    position: PositionView,
    pool: State,
    info: HouseInfo,
    now: u64,
    claim_roll: u64,
    exit_roll: u64,
    unstake: bool,
)
    ensures
        settled(position, pool, info, now, claim_roll, exit_roll, unstake) matches Ok(settlement)
            ==> {
            &&& settlement.pool.tax_rate == pool.tax_rate
            &&& settlement.pool.amount_tax >= pool.amount_tax
            &&& pool.total_building_staked == settlement.pool.total_building_staked + if unstake
                && position.type_nft == TypeNFT::Building {
                1nat
            } else {
                0nat
            }
        },
{
}

} // verus!
