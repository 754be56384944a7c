//! The tax pool: the tax on claims is shared out among the staked
//! buildings through one rate, without visiting them.

use vstd::prelude::*;
use crate::agent::error::ContractError;
use crate::agent::state::State;

verus! {

/// The pool after a tax of `amount` has come in. With no building staked
/// the tax is set aside as unaccounted reward. Otherwise the rate grows by
/// the sum of `amount` and the rate, divided by the number of buildings and
/// rounded down, and the unaccounted reward is dropped. An amount that does
/// not fit in 128 bits is an error.
pub open spec fn tax_paid(state: State, amount: u128) -> Result<State, ContractError> {
    if state.total_building_staked == 0 {
        if state.unaccounted_reward + amount > u128::MAX {
            Err(ContractError::ArithmeticOverflow)
        } else {
            Ok(State { unaccounted_reward: (state.unaccounted_reward + amount) as u128, ..state })
        }
    } else if amount + state.amount_tax > u128::MAX {
        Err(ContractError::ArithmeticOverflow)
    } else if state.amount_tax + rate_gain(state, amount) > u128::MAX {
        Err(ContractError::ArithmeticOverflow)
    } else {
        Ok(
            State {
                amount_tax: (state.amount_tax + rate_gain(state, amount)) as u128,
                unaccounted_reward: 0,
                ..state
            },
        )
    }
}

/// By how much a tax of `amount` raises the rate while buildings are staked.
pub open spec fn rate_gain(state: State, amount: u128) -> int {
    (amount + state.amount_tax) / (state.total_building_staked as int)
}

/// The pool after the number of staked buildings has changed by `delta`. A
/// number that would fall below zero is an error, and so is one that does
/// not fit in 128 bits.
pub open spec fn count_adjusted(state: State, delta: i128) -> Result<State, ContractError> {
    if state.total_building_staked + delta < 0 {
        Err(ContractError::InvariantViolation)
    } else if state.total_building_staked + delta > u128::MAX {
        Err(ContractError::ArithmeticOverflow)
    } else {
        Ok(State { total_building_staked: (state.total_building_staked + delta) as u128, ..state })
    }
}

/// What is left of `amount` once damage has taken `property_damage`
/// hundredths of it, rounded down. A damage above a hundred hundredths is
/// an error, and so is a product that does not fit in 128 bits.
pub open spec fn after_damage(amount: u128, property_damage: u128) -> Result<u128, ContractError> {
    if property_damage > 100 {
        Err(ContractError::ArithmeticOverflow)
    } else if amount * (100 - property_damage) > u128::MAX {
        Err(ContractError::ArithmeticOverflow)
    } else {
        Ok((amount * (100 - property_damage) / 100) as u128)
    }
}

/// Pays a tax of `amount` into the pool. On an error the pool is left as it
/// was.
pub fn pay_building_tax(state: &mut State, amount: u128) -> (result: Result<(), ContractError>)
    ensures
        match tax_paid(*old(state), amount) {
            Ok(paid) => result is Ok && *final(state) == paid,
            Err(error) => result == Err::<(), ContractError>(error) && *final(state) == *old(state),
        },
        final(state).tax_rate == old(state).tax_rate,
        final(state).total_building_staked == old(state).total_building_staked,
        final(state).amount_tax >= old(state).amount_tax,
        result is Ok && old(state).total_building_staked == 0 ==> {
            &&& final(state).amount_tax == old(state).amount_tax
            &&& final(state).unaccounted_reward == old(state).unaccounted_reward + amount
            &&& amount > 0 ==> final(state).unaccounted_reward > old(state).unaccounted_reward
        },
        result is Ok && old(state).total_building_staked > 0 ==> {
            &&& final(state).unaccounted_reward == 0
            &&& final(state).amount_tax == old(state).amount_tax + rate_gain(*old(state), amount)
        },
{
    if state.total_building_staked == 0 {
        match state.unaccounted_reward.checked_add(amount) {
            Some(set_aside) => {
                state.unaccounted_reward = set_aside;
                Ok(())
            },
            None => Err(ContractError::ArithmeticOverflow),
        }
    } else {
        let injected = match amount.checked_add(state.amount_tax) {
            Some(injected) => injected,
            None => {
                return Err(ContractError::ArithmeticOverflow);
            },
        };
        let gain = injected / state.total_building_staked;
        match state.amount_tax.checked_add(gain) {
            Some(rate) => {
                state.amount_tax = rate;
                state.unaccounted_reward = 0;
                Ok(())
            },
            None => Err(ContractError::ArithmeticOverflow),
        }
    }
}

/// Changes the number of staked buildings by `delta`. On an error the pool
/// is left as it was.
pub fn adjust_building_count(state: &mut State, delta: i128) -> (result: Result<
    (),
    ContractError,
>)
    ensures
        match count_adjusted(*old(state), delta) {
            Ok(adjusted) => result is Ok && *final(state) == adjusted,
            Err(error) => result == Err::<(), ContractError>(error) && *final(state) == *old(state),
        },
{
    if delta >= 0 {
        match state.total_building_staked.checked_add(delta as u128) {
            Some(count) => {
                state.total_building_staked = count;
                Ok(())
            },
            None => Err(ContractError::ArithmeticOverflow),
        }
    } else {
        let less: u128 = if delta == i128::MIN {
            0x8000_0000_0000_0000_0000_0000_0000_0000
        } else {
            (-delta) as u128
        };
        if less > state.total_building_staked {
            Err(ContractError::InvariantViolation)
        } else {
            state.total_building_staked = state.total_building_staked - less;
            Ok(())
        }
    }
}

/// What is left of `amount` once damage has taken `property_damage`
/// hundredths of it.
pub fn property_damage_tax(amount: u128, property_damage: u128) -> (result: Result<
    u128,
    ContractError,
>)
    ensures
        result == after_damage(amount, property_damage),
        result matches Ok(left) ==> left <= amount,
{
    if property_damage > 100 {
        return Err(ContractError::ArithmeticOverflow);
    }
    let kept: u128 = 100 - property_damage;
    match amount.checked_mul(kept) {
        Some(product) => {
            assert(amount * kept / 100 <= amount) by (nonlinear_arith)
                requires
                    0 <= kept <= 100,
                    0 <= amount,
            ;
            Ok(product / 100)
        },
        None => Err(ContractError::ArithmeticOverflow),
    }
}

} // verus!
