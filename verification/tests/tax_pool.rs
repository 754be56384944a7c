use estate_staking::agent::error::ContractError;
use estate_staking::agent::pool::{adjust_building_count, pay_building_tax, property_damage_tax};
use estate_staking::agent::state::State;

fn pool(amount_tax: u128, unaccounted_reward: u128, total_building_staked: u128) -> State {
    State { tax_rate: 25, amount_tax, unaccounted_reward, total_building_staked }
}

#[test]
fn tax_without_buildings_is_set_aside() {
    let mut state = pool(7, 0, 0);
    assert_eq!(pay_building_tax(&mut state, 40), Ok(()));
    assert_eq!(state, pool(7, 40, 0));
    assert_eq!(pay_building_tax(&mut state, 2), Ok(()));
    assert_eq!(state, pool(7, 42, 0));
}

#[test]
fn tax_of_zero_without_buildings_changes_nothing() {
    let mut state = pool(7, 5, 0);
    assert_eq!(pay_building_tax(&mut state, 0), Ok(()));
    assert_eq!(state, pool(7, 5, 0));
}

#[test]
fn unaccounted_reward_is_dropped_by_the_next_tax_under_a_building() {
    let mut state = pool(0, 0, 0);
    assert_eq!(pay_building_tax(&mut state, 40), Ok(()));
    assert_eq!(state.unaccounted_reward, 40);
    assert_eq!(state.amount_tax, 0);
    assert_eq!(adjust_building_count(&mut state, 1), Ok(()));
    assert_eq!(state.total_building_staked, 1);
    assert_eq!(state.unaccounted_reward, 40);
    assert_eq!(pay_building_tax(&mut state, 100), Ok(()));
    assert_eq!(state, pool(100, 0, 1));
}

#[test]
fn tax_is_shared_with_the_rate_as_it_stood() {
    let mut state = pool(10, 0, 1);
    assert_eq!(pay_building_tax(&mut state, 5), Ok(()));
    assert_eq!(state, pool(25, 0, 1));
    let mut state = pool(10, 3, 4);
    assert_eq!(pay_building_tax(&mut state, 5), Ok(()));
    assert_eq!(state, pool(13, 0, 4));
}

#[test]
fn tax_from_a_rate_of_zero_is_shared_whole_but_for_the_remainder() {
    let mut state = pool(0, 0, 3);
    assert_eq!(pay_building_tax(&mut state, 100), Ok(()));
    assert_eq!(state.amount_tax, 33);
    let shared = 3 * state.amount_tax;
    assert!(100 - 2 <= shared && shared <= 100);
}

#[test]
fn tax_that_overflows_is_refused_and_changes_nothing() {
    let mut state = pool(0, u128::MAX, 0);
    assert_eq!(pay_building_tax(&mut state, 1), Err(ContractError::ArithmeticOverflow));
    assert_eq!(state, pool(0, u128::MAX, 0));
    let mut state = pool(u128::MAX, 0, 1);
    assert_eq!(pay_building_tax(&mut state, 1), Err(ContractError::ArithmeticOverflow));
    assert_eq!(state, pool(u128::MAX, 0, 1));
    let mut state = pool(u128::MAX - 1, 9, 1);
    assert_eq!(pay_building_tax(&mut state, 1), Err(ContractError::ArithmeticOverflow));
    assert_eq!(state, pool(u128::MAX - 1, 9, 1));
}

#[test]
fn tax_that_just_fits_is_taken() {
    let mut state = pool(u128::MAX / 2 + 1, 9, 2);
    assert_eq!(pay_building_tax(&mut state, u128::MAX / 2), Ok(()));
    assert_eq!(state, pool(u128::MAX, 0, 2));
}

#[test]
fn building_count_goes_up_and_down() {
    let mut state = pool(0, 0, 0);
    assert_eq!(adjust_building_count(&mut state, 3), Ok(()));
    assert_eq!(state.total_building_staked, 3);
    assert_eq!(adjust_building_count(&mut state, -2), Ok(()));
    assert_eq!(state.total_building_staked, 1);
    assert_eq!(adjust_building_count(&mut state, 0), Ok(()));
    assert_eq!(state.total_building_staked, 1);
    assert_eq!(adjust_building_count(&mut state, -1), Ok(()));
    assert_eq!(state.total_building_staked, 0);
}

#[test]
fn building_count_never_falls_below_zero() {
    let mut state = pool(5, 6, 0);
    assert_eq!(adjust_building_count(&mut state, -1), Err(ContractError::InvariantViolation));
    assert_eq!(state, pool(5, 6, 0));
    let mut state = pool(5, 6, 2);
    assert_eq!(adjust_building_count(&mut state, -3), Err(ContractError::InvariantViolation));
    assert_eq!(state, pool(5, 6, 2));
    assert_eq!(
        adjust_building_count(&mut state, i128::MIN),
        Err(ContractError::InvariantViolation)
    );
    assert_eq!(state, pool(5, 6, 2));
}

#[test]
fn building_count_at_the_ends_of_its_range() {
    let mut state = pool(0, 0, u128::MAX);
    assert_eq!(adjust_building_count(&mut state, 1), Err(ContractError::ArithmeticOverflow));
    assert_eq!(state.total_building_staked, u128::MAX);
    assert_eq!(adjust_building_count(&mut state, i128::MIN), Ok(()));
    assert_eq!(state.total_building_staked, u128::MAX - (1u128 << 127));
    let mut state = pool(0, 0, 1u128 << 127);
    assert_eq!(adjust_building_count(&mut state, i128::MIN), Ok(()));
    assert_eq!(state.total_building_staked, 0);
    assert_eq!(adjust_building_count(&mut state, i128::MAX), Ok(()));
    assert_eq!(state.total_building_staked, i128::MAX as u128);
}

#[test]
fn damage_takes_its_hundredths() {
    assert_eq!(property_damage_tax(38, 10), Ok(34));
    assert_eq!(property_damage_tax(100, 0), Ok(100));
    assert_eq!(property_damage_tax(100, 100), Ok(0));
    assert_eq!(property_damage_tax(0, 50), Ok(0));
    assert_eq!(property_damage_tax(1, 1), Ok(0));
    assert_eq!(property_damage_tax(199, 50), Ok(99));
}

#[test]
fn damage_that_cannot_be_counted_is_refused() {
    assert_eq!(property_damage_tax(38, 101), Err(ContractError::ArithmeticOverflow));
    assert_eq!(property_damage_tax(u128::MAX, 0), Err(ContractError::ArithmeticOverflow));
    assert_eq!(property_damage_tax(u128::MAX, 100), Ok(0));
    assert_eq!(property_damage_tax(u128::MAX / 100, 0), Ok(u128::MAX / 100));
}
