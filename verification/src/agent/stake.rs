//! Staking: a house or a building takes its position in the ledger.

use vstd::prelude::*;
use crate::agent::contract::Agent;
use crate::agent::error::ContractError;
use crate::agent::ledger::{lemma_buildings_push, lemma_well_rated_kept, staking};
use crate::agent::msg::Block;
use crate::agent::pool::{adjust_building_count, count_adjusted};
use crate::agent::rating::{assign_rating, rating_of};
use crate::agent::state::{PositionView, StakedAccountInfo, State, TypeNFT};
use crate::keystream::first_draw;

verus! {

/// The position that a house takes when it is staked at the time `now`:
/// the time is its baseline, and `draw` gives its rating.
pub open spec fn house_position(
    token_id: Seq<char>,
    owner: Seq<u8>,
    now: u64,
    draw: u64,
) -> PositionView {
    PositionView {
        token_id: token_id,
        owner: owner,
        value: now as u128,
        type_nft: TypeNFT::House,
        ternant_rating: rating_of(draw),
    }
}

/// The position that a building takes when it is staked under the rate
/// `rate`: the rate is its baseline, and its rating is zero.
pub open spec fn building_position(token_id: Seq<char>, owner: Seq<u8>, rate: u128) -> PositionView {
    PositionView {
        token_id: token_id,
        owner: owner,
        value: rate,
        type_nft: TypeNFT::Building,
        ternant_rating: 0,
    }
}

/// The positions and the tax pool after a building has been staked: the
/// building is counted in. A token that has a position already is refused,
/// and so is a count that does not fit in 128 bits.
pub open spec fn building_staked(
    positions: Seq<PositionView>,
    pool: State,
    token_id: Seq<char>,
    owner: Seq<u8>,
) -> Result<(Seq<PositionView>, State), ContractError> {
    match staking(positions, building_position(token_id, owner, pool.amount_tax)) {
        Err(error) => Err(error),
        Ok(staked) => match count_adjusted(pool, 1i128) {
            Err(error) => Err(error),
            Ok(counted) => Ok((staked, counted)),
        },
    }
}

/// Stakes the house `token_id` for `owner` at the time of `block`. Its
/// rating is drawn from `random_seed`. A token that has a position already
/// is refused with `AlreadyStaked`, and the agent is left as it was.
pub fn staking_house(
    agent: &mut Agent,
    block: &Block,
    random_seed: &[u8; 32],
    token_id: String,
    owner: Vec<u8>,
) -> (result: Result<StakedAccountInfo, ContractError>)
    requires
        old(agent).wf(),
    ensures
        final(agent).wf(),
        old(agent).counted() ==> final(agent).counted(),
        old(agent).rated() ==> final(agent).rated(),
        final(agent).state.amount_tax >= old(agent).state.amount_tax,
        final(agent).state.tax_rate == old(agent).state.tax_rate,
        final(agent).config == old(agent).config,
        final(agent).prng_seed == old(agent).prng_seed,
        final(agent).state == old(agent).state,
        match staking(
            old(agent).ledger@,
            house_position(token_id@, owner@, block.time, first_draw(random_seed@)),
        ) {
            Ok(positions) => {
                &&& result matches Ok(position)
                &&& position@ == house_position(
                    token_id@,
                    owner@,
                    block.time,
                    first_draw(random_seed@),
                )
                &&& final(agent).ledger@ == positions
            },
            Err(error) => {
                &&& result matches Err(refusal)
                &&& refusal == error
                &&& final(agent).ledger@ == old(agent).ledger@
            },
        },
{
    if agent.ledger.has(&token_id) {
        return Err(ContractError::AlreadyStaked);
    }
    let rating = assign_rating(random_seed);
    let position = StakedAccountInfo {
        token_id,
        owner,
        value: block.time as u128,
        type_nft: TypeNFT::House,
        ternant_rating: rating,
    };
    let staked_position = position.duplicate();
    proof {
        lemma_buildings_push(agent.ledger@, position@);
        if agent.rated() {
            lemma_well_rated_kept(agent.ledger@, position@, 0, 0);
        }
    }
    match agent.ledger.stake(position) {
        Ok(_) => Ok(staked_position),
        Err(error) => Err(error),
    }
}

/// Stakes the building `token_id` for `owner` under the rate of the tax
/// pool, and counts it in. A token that has a position already is refused
/// with `AlreadyStaked`, and a count that does not fit in 128 bits with
/// `ArithmeticOverflow`; the agent is then left as it was.
pub fn staking_building(agent: &mut Agent, token_id: String, owner: Vec<u8>) -> (result: Result<
    StakedAccountInfo,
    ContractError,
>)
    requires
        old(agent).wf(),
    ensures
        final(agent).wf(),
        old(agent).counted() ==> final(agent).counted(),
        old(agent).rated() ==> final(agent).rated(),
        final(agent).state.amount_tax >= old(agent).state.amount_tax,
        final(agent).state.tax_rate == old(agent).state.tax_rate,
        final(agent).config == old(agent).config,
        final(agent).prng_seed == old(agent).prng_seed,
        match building_staked(old(agent).ledger@, old(agent).state, token_id@, owner@) {
            Ok((positions, pool)) => {
                &&& result matches Ok(position)
                &&& position@ == building_position(token_id@, owner@, old(agent).state.amount_tax)
                &&& final(agent).ledger@ == positions
                &&& final(agent).state == pool
            },
            Err(error) => {
                &&& result matches Err(refusal)
                &&& refusal == error
                &&& final(agent).ledger@ == old(agent).ledger@
                &&& final(agent).state == old(agent).state
            },
        },
{
    if agent.ledger.has(&token_id) {
        return Err(ContractError::AlreadyStaked);
    }
    let mut pool = agent.state;
    match adjust_building_count(&mut pool, 1) {
        Ok(_) => {},
        Err(error) => {
            return Err(error);
        },
    }
    let position = StakedAccountInfo {
        token_id,
        owner,
        value: agent.state.amount_tax,
        type_nft: TypeNFT::Building,
        ternant_rating: 0,
    };
    let staked_position = position.duplicate();
    proof {
        lemma_buildings_push(agent.ledger@, position@);
        if agent.rated() {
            lemma_well_rated_kept(agent.ledger@, position@, 0, 0);
        }
    }
    match agent.ledger.stake(position) {
        Ok(_) => {
            agent.state = pool;
            Ok(staked_position)
        },
        Err(error) => Err(error),
    }
}

} // verus!
