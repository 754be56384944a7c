//! What holds of the ledger, the tax pool and the claims, whatever the
//! order in which the operations are called.

use vstd::prelude::*;
use vstd::arithmetic::div_mod::lemma_fundamental_div_mod;
use vstd::arithmetic::div_mod::lemma_mod_bound;
use crate::agent::claim::Outcome;
use crate::agent::claim::claim_admitted;
use crate::agent::claim::claim_outcome;
use crate::agent::contract::claim_gate;
use crate::agent::contract::gated_claim_outcome;
use crate::agent::error::ContractError;
use crate::agent::ledger::distinct_tokens;
use crate::agent::ledger::rebased;
use crate::agent::ledger::removal;
use crate::agent::ledger::slot_of;
use crate::agent::ledger::staked;
use crate::agent::ledger::staking;
use crate::agent::msg::OracleReport;
use crate::agent::pool::rate_gain;
use crate::agent::pool::tax_paid;
use crate::agent::settle::claim_tax;
use crate::agent::settle::gross_reward;
use crate::agent::settle::settled;
use crate::agent::state::Config;
use crate::agent::state::HouseInfo;
use crate::agent::state::PositionView;
use crate::agent::state::State;
use crate::agent::state::TypeNFT;

verus! {

/// A token that has a position cannot be staked: the attempt is refused
/// with `AlreadyStaked`.
pub proof fn law_staked_token_is_refused(s: Seq<PositionView>, position: PositionView)
    requires
        staked(s, position.token_id),
    ensures
        staking(s, position) == Err::<Seq<PositionView>, ContractError>(
            ContractError::AlreadyStaked,
        ),
{
}

/// Staking a token twice fails the second time with `AlreadyStaked`,
/// whoever stakes it and whatever the position would be.
pub proof fn law_stake_after_stake(
    s: Seq<PositionView>,
    first: PositionView,
    second: PositionView,
)
    requires
        staking(s, first) is Ok,
        second.token_id == first.token_id,
    ensures
        staking(staking(s, first)->Ok_0, second) == Err::<Seq<PositionView>, ContractError>(
            ContractError::AlreadyStaked,
        ),
{
    let t = s.push(first);
    assert(t[s.len() as int].token_id == second.token_id);
}

/// Staking keeps every position that was there, and keeps the tokens
/// distinct.
pub proof fn law_staking_keeps(s: Seq<PositionView>, position: PositionView, token_id: Seq<char>)
    requires
        distinct_tokens(s),
        staking(s, position) is Ok,
    ensures
        distinct_tokens(staking(s, position)->Ok_0),
        staked(staking(s, position)->Ok_0, position.token_id),
        staked(s, token_id) ==> staked(staking(s, position)->Ok_0, token_id),
{
    let t = s.push(position);
    assert(t[s.len() as int].token_id == position.token_id);
    if staked(s, token_id) {
        assert(t[slot_of(s, token_id)].token_id == token_id);
    }
}

/// A new baseline keeps every token staked, and keeps the tokens distinct.
pub proof fn law_rebase_keeps(s: Seq<PositionView>, slot: int, value: u128, token_id: Seq<char>)
    requires
        distinct_tokens(s),
        0 <= slot < s.len(),
    ensures
        distinct_tokens(rebased(s, slot, value)),
        staked(rebased(s, slot, value), token_id) == staked(s, token_id),
{
    let t = rebased(s, slot, value);
    if staked(s, token_id) {
        assert(t[slot_of(s, token_id)].token_id == token_id);
    }
}

/// Taking a position out leaves its token without a position, keeps every
/// other token as it was, and keeps the tokens distinct.
pub proof fn law_removal_keeps(
    s: Seq<PositionView>,
    token_id: Seq<char>,
    owner: Seq<u8>,
    other: Seq<char>,
)
    requires
        distinct_tokens(s),
        removal(s, token_id, owner) is Ok,
    ensures
        distinct_tokens(removal(s, token_id, owner)->Ok_0),
        !staked(removal(s, token_id, owner)->Ok_0, token_id),
        other != token_id ==> staked(removal(s, token_id, owner)->Ok_0, other) == staked(s, other),
{
    let slot = slot_of(s, token_id);
    let t = s.remove(slot);
    if other != token_id && staked(s, other) {
        let i = slot_of(s, other);
        assert(t[if i < slot { i } else { i - 1 }].token_id == other);
    }
}

/// What the buildings with the baselines `baselines` can claim together
/// under the rate `rate`: for each the rate less its baseline.
pub open spec fn claimable(baselines: Seq<u128>, rate: int) -> int
    decreases baselines.len(),
{
    if baselines.len() == 0 {
        0
    } else {
        claimable(baselines.drop_last(), rate) + (rate - baselines.last())
    }
}

/// When the rate grows, what the buildings can claim together grows by as
/// much for each building.
pub proof fn lemma_claimable_growth(baselines: Seq<u128>, before: int, after: int)
    ensures
        claimable(baselines, after) - claimable(baselines, before) == baselines.len() * (after
            - before),
    decreases baselines.len(),
{
    if baselines.len() > 0 {
        lemma_claimable_growth(baselines.drop_last(), before, after);
        assert(baselines.len() * (after - before) == (baselines.len() - 1) * (after - before) + (
        after - before)) by (nonlinear_arith);
    }
}

/// While buildings are staked, a tax shares out among them the sum of the
/// amount and of the rate as it stood, less what the division leaves over,
/// which is less than their number.
pub proof fn law_pool_distribution(pool: State, amount: u128, baselines: Seq<u128>)
    requires
        pool.total_building_staked > 0,
        baselines.len() == pool.total_building_staked,
        tax_paid(pool, amount) is Ok,
    ensures
        ({
            let after = tax_paid(pool, amount)->Ok_0;
            let grown = claimable(baselines, after.amount_tax as int) - claimable(
                baselines,
                pool.amount_tax as int,
            );
            &&& grown == pool.total_building_staked * rate_gain(pool, amount)
            &&& grown == amount + pool.amount_tax - (amount + pool.amount_tax)
                % (pool.total_building_staked as int)
            &&& amount + pool.amount_tax - (pool.total_building_staked - 1) <= grown <= amount
                + pool.amount_tax
        }),
{
    let after = tax_paid(pool, amount)->Ok_0;
    let count = pool.total_building_staked as int;
    let injected = amount + pool.amount_tax;
    lemma_claimable_growth(baselines, pool.amount_tax as int, after.amount_tax as int);
    lemma_fundamental_div_mod(injected, count);
    lemma_mod_bound(injected, count);
}

/// While buildings are staked, a tax of `amount` is shared out among them
/// whole, but for what the division leaves over, which is less than their
/// number. This holds where the rate as it stood is no more than what the
/// division of the amount and the rate leaves over, as it is while the rate
/// is zero; of any other pool it does not hold, because the rate as it
/// stood is shared out with the amount.
pub proof fn law_pool_conservation(pool: State, amount: u128, baselines: Seq<u128>)
    requires
        pool.total_building_staked > 0,
        baselines.len() == pool.total_building_staked,
        tax_paid(pool, amount) is Ok,
        pool.amount_tax <= (amount + pool.amount_tax) % (pool.total_building_staked as int),
    ensures
        ({
            let after = tax_paid(pool, amount)->Ok_0;
            let grown = claimable(baselines, after.amount_tax as int) - claimable(
                baselines,
                pool.amount_tax as int,
            );
            amount - (pool.total_building_staked - 1) <= grown <= amount
        }),
{
    law_pool_distribution(pool, amount, baselines);
}

/// The tax pool never lowers its rate, and while buildings are staked a tax
/// leaves nothing unaccounted.
pub proof fn law_rate_never_falls(pool: State, amount: u128)
    requires
        tax_paid(pool, amount) is Ok,
    ensures
        tax_paid(pool, amount)->Ok_0.amount_tax >= pool.amount_tax,
        tax_paid(pool, amount)->Ok_0.total_building_staked == pool.total_building_staked,
        pool.total_building_staked > 0 ==> tax_paid(pool, amount)->Ok_0.unaccounted_reward == 0,
{
    if pool.total_building_staked > 0 {
        let count = pool.total_building_staked as int;
        let injected = amount + pool.amount_tax;
        lemma_fundamental_div_mod(injected, count);
        lemma_mod_bound(injected, count);
        assert(injected / count >= 0) by (nonlinear_arith)
            requires
                injected >= 0,
                count > 0,
        ;
    }
}

/// While no building is staked, a tax above zero raises the unaccounted
/// reward by its amount and leaves the rate as it stood.
pub proof fn law_carry_over(pool: State, amount: u128)
    requires
        pool.total_building_staked == 0,
        amount > 0,
        tax_paid(pool, amount) is Ok,
    ensures
        tax_paid(pool, amount)->Ok_0.unaccounted_reward > pool.unaccounted_reward,
        tax_paid(pool, amount)->Ok_0.unaccounted_reward == pool.unaccounted_reward + amount,
        tax_paid(pool, amount)->Ok_0.amount_tax == pool.amount_tax,
{
}

/// A claim by any other than the owner recorded is refused with
/// `Unauthorized`, whether the position is kept or given up and whatever
/// else is amiss.
pub proof fn law_claim_by_stranger(
    positions: Seq<PositionView>,
    pool: State,
    config: Config,
    caller: Seq<u8>,
    info: HouseInfo,
    now: u64,
    claim_roll: u64,
    exit_roll: u64,
    token_id: Seq<char>,
    unstake: bool,
    class: TypeNFT,
)
    requires
        staked(positions, token_id),
        positions[slot_of(positions, token_id)].owner != caller,
    ensures
        claim_outcome(
            positions,
            pool,
            config,
            caller,
            info,
            now,
            claim_roll,
            exit_roll,
            token_id,
            unstake,
            class,
        ) == Err::<Outcome, ContractError>(ContractError::Unauthorized),
{
}

/// A claim by the owner recorded is refused with `NotRegistered` while the
/// asset contract or the reward contract is not registered, whatever the
/// class of the position and the class that it is claimed under.
pub proof fn law_claim_needs_registration(
    positions: Seq<PositionView>,
    pool: State,
    config: Config,
    caller: Seq<u8>,
    info: HouseInfo,
    now: u64,
    claim_roll: u64,
    exit_roll: u64,
    token_id: Seq<char>,
    unstake: bool,
    class: TypeNFT,
)
    requires
        staked(positions, token_id),
        positions[slot_of(positions, token_id)].owner == caller,
        config.cw721_addr is None || config.cw20_addr is None,
    ensures
        claim_admitted(positions, config, caller, token_id, class) == Err::<
            PositionView,
            ContractError,
        >(ContractError::NotRegistered),
        claim_outcome(
            positions,
            pool,
            config,
            caller,
            info,
            now,
            claim_roll,
            exit_roll,
            token_id,
            unstake,
            class,
        ) == Err::<Outcome, ContractError>(ContractError::NotRegistered),
{
}

/// A claim through the agent by any other than the owner recorded is
/// refused with `Unauthorized`, whatever the registry reports.
pub proof fn law_gated_claim_by_stranger(
    positions: Seq<PositionView>,
    pool: State,
    config: Config,
    caller: Seq<u8>,
    report: OracleReport,
    now: u64,
    claim_roll: u64,
    exit_roll: u64,
    token_id: Seq<char>,
    unstake: bool,
)
    requires
        staked(positions, token_id),
        positions[slot_of(positions, token_id)].owner != caller,
    ensures
        claim_gate(positions, config, caller, report.owner@, token_id) == Err::<
            (),
            ContractError,
        >(ContractError::Unauthorized),
        gated_claim_outcome(
            positions,
            pool,
            config,
            caller,
            report,
            now,
            claim_roll,
            exit_roll,
            token_id,
            unstake,
        ) == Err::<Outcome, ContractError>(ContractError::Unauthorized),
{
}

/// A claim never pays out more than the reward less the tax on it, and the
/// tax is never more than the reward.
pub proof fn law_payout_within_reward(
    position: PositionView,
    pool: State,
    info: HouseInfo,
    now: u64,
    claim_roll: u64,
    exit_roll: u64,
    unstake: bool,
)
    requires
        settled(position, pool, info, now, claim_roll, exit_roll, unstake) is Ok,
    ensures
        ({
            let settlement = settled(position, pool, info, now, claim_roll, exit_roll, unstake)->Ok_0;
            let gross = gross_reward(position, pool.amount_tax, now, info.income_per_day);
            &&& gross is Ok
            &&& claim_tax(gross->Ok_0) is Ok
            &&& claim_tax(gross->Ok_0)->Ok_0 <= gross->Ok_0
            &&& settlement.payout <= gross->Ok_0 - claim_tax(gross->Ok_0)->Ok_0
        }),
{
    let gross = gross_reward(position, pool.amount_tax, now, info.income_per_day)->Ok_0;
    let tax = claim_tax(gross)->Ok_0;
    let net = (gross - tax) as u128;
    if info.property_damage <= 100 {
        assert(net * (100 - info.property_damage) / 100 <= net) by (nonlinear_arith)
            requires
                0 <= 100 - info.property_damage <= 100,
                0 <= net,
        ;
    }
}

} // verus!
