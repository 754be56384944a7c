//! Claims: the reward of a position is settled and paid out, and the
//! position is kept or given up.

use vstd::prelude::*;
use crate::agent::contract::Agent;
use crate::agent::error::ContractError;
use crate::agent::ledger::{
    lemma_buildings_rebased,
    lemma_buildings_remove,
    lemma_well_rated_kept,
    position_of,
    rebased,
    slot_of,
};
use crate::agent::msg::{Block, Caller};
use crate::agent::rating::{roll_from_draw, roll_of};
use crate::agent::settle::{lemma_settled_count, settle, settled};
use crate::agent::state::{Config, HouseInfo, PositionView, StakedAccountInfo, State, TypeNFT};
use crate::bytes::{copy_bytes, same_bytes};
use crate::keystream::{draw_u64, first_draw};
use crate::response::{attribute, Response, ResponseView, Transfer, TransferView};

verus! {

/// What a claim comes to: the positions and the tax pool after it, and the
/// response.
pub struct Outcome {
    pub positions: Seq<PositionView>,
    pub pool: State,
    pub response: ResponseView,
}

/// The name under which a claim on a token of class `class` is told of.
pub open spec fn claim_action(class: TypeNFT) -> Seq<char> {
    match class {
        TypeNFT::House => "claim_house"@,
        TypeNFT::Building => "claim_building"@,
    }
}

/// The response to a claim: what was done, and the transfers.
pub open spec fn claim_response(
    config: Config,
    position: PositionView,
    payout: u128,
    unstake: bool,
    class: TypeNFT,
) -> ResponseView {
    ResponseView {
        attributes: seq![attribute("action"@, claim_action(class))],
        messages: claim_messages(config, position, payout, unstake),
    }
}

/// The transfers that a claim orders: the reward to the owner of the
/// position, and before it, where the position is given up, the token.
pub open spec fn claim_messages(
    config: Config,
    position: PositionView,
    payout: u128,
    unstake: bool,
) -> Seq<TransferView> {
    let reward = TransferView::Reward {
        contract: config.cw20_addr->0@,
        recipient: position.owner,
        amount: payout,
    };
    if unstake {
        seq![
            TransferView::Nft {
                contract: config.cw721_addr->0@,
                recipient: position.owner,
                token_id: position.token_id,
            },
            reward,
        ]
    } else {
        seq![reward]
    }
}

/// Whether `caller` may claim on `token_id`, the token being taken for one
/// of class `class`, and if so on which position. The claim is refused with
/// `NotStaked` where the token has no position; else with `Unauthorized`
/// where `caller` is not the owner recorded; else with `NotRegistered`
/// where the asset contract or the reward contract is not registered; else
/// with `InvariantViolation` where the position is of the other class. So a
/// token that the registry comes to give another class than the one it was
/// staked under can no longer be claimed on, nor given up.
pub open spec fn claim_admitted(
    positions: Seq<PositionView>,
    config: Config,
    caller: Seq<u8>,
    token_id: Seq<char>,
    class: TypeNFT,
) -> Result<PositionView, ContractError> {
    match position_of(positions, token_id) {
        None => Err(ContractError::NotStaked),
        Some(position) => if position.owner != caller {
            Err(ContractError::Unauthorized)
        } else if config.cw721_addr is None || config.cw20_addr is None {
            Err(ContractError::NotRegistered)
        } else if position.type_nft != class {
            Err(ContractError::InvariantViolation)
        } else {
            Ok(position)
        },
    }
}

/// What a claim of `caller` on `token_id` comes to, the token being taken
/// for one of class `class`. It is refused as `claim_admitted` says, in
/// that order, before anything is counted; else it comes to what the
/// settlement is.
pub open spec fn claim_outcome(
    positions: Seq<PositionView>,
    pool: State,
    config: Config,
    caller: Seq<u8>,
    info: HouseInfo,
    now: u64,
    claim_roll: u64,
    exit_roll: u64,
    token_id: Seq<char>,
    unstake: bool,
    class: TypeNFT,
) -> Result<Outcome, ContractError> {
    match claim_admitted(positions, config, caller, token_id, class) {
        Err(error) => Err(error),
        Ok(position) => match settled(position, pool, info, now, claim_roll, exit_roll, unstake) {
            Err(error) => Err(error),
            Ok(settlement) => Ok(
                Outcome {
                    positions: if unstake {
                        positions.remove(slot_of(positions, token_id))
                    } else {
                        rebased(positions, slot_of(positions, token_id), settlement.baseline)
                    },
                    pool: settlement.pool,
                    response: claim_response(config, position, settlement.payout, unstake, class),
                },
            ),
        },
    }
}

/// Whether `caller` may claim on `token_id` under the class `class`: the
/// position that the claim is on, or the refusal.
pub fn admit_claim(
    agent: &Agent,
    caller: &Vec<u8>,
    token_id: &String,
    class: TypeNFT,
) -> (result: Result<StakedAccountInfo, ContractError>)
    requires
        agent.wf(),
    ensures
        match claim_admitted(agent.ledger@, agent.config, caller@, token_id@, class) {
            Ok(admitted) => result matches Ok(position) && position@ == admitted,
            Err(error) => result matches Err(refusal) && refusal == error,
        },
{
    let position = match agent.ledger.get(token_id) {
        Ok(position) => position,
        Err(error) => {
            return Err(error);
        },
    };
    if !same_bytes(&position.owner, caller) {
        return Err(ContractError::Unauthorized);
    }
    if agent.config.cw721_addr.is_none() || agent.config.cw20_addr.is_none() {
        return Err(ContractError::NotRegistered);
    }
    if position.type_nft != class {
        return Err(ContractError::InvariantViolation);
    }
    Ok(position)
}

/// Claims the reward of `token_id` for `caller`, with the two rolls for
/// damage given, and with `unstake` gives the position up. On an error the
/// agent is left as it was.
pub fn claim(
    agent: &mut Agent,
    now: u64,
    caller: &Vec<u8>,
    info: &HouseInfo,
    claim_roll: u64,
    exit_roll: u64,
    token_id: &String,
    unstake: bool,
    class: TypeNFT,
) -> (result: Result<Response, ContractError>)
    requires
        old(agent).wf(),
    ensures
        final(agent).wf(),
        old(agent).counted() ==> final(agent).counted(),
        old(agent).rated() ==> final(agent).rated(),
        final(agent).state.amount_tax >= old(agent).state.amount_tax,
        final(agent).state.tax_rate == old(agent).state.tax_rate,
        final(agent).config == old(agent).config,
        final(agent).prng_seed == old(agent).prng_seed,
        match claim_outcome(
            old(agent).ledger@,
            old(agent).state,
            old(agent).config,
            caller@,
            *info,
            now,
            claim_roll,
            exit_roll,
            token_id@,
            unstake,
            class,
        ) {
            Ok(outcome) => {
                &&& result matches Ok(response)
                &&& response@ == outcome.response
                &&& final(agent).ledger@ == outcome.positions
                &&& final(agent).state == outcome.pool
            },
            Err(error) => {
                &&& result matches Err(refusal)
                &&& refusal == error
                &&& final(agent).ledger@ == old(agent).ledger@
                &&& final(agent).state == old(agent).state
            },
        },
{
    let position = match admit_claim(agent, caller, token_id, class) {
        Ok(position) => position,
        Err(error) => {
            return Err(error);
        },
    };
    let asset_contract = match &agent.config.cw721_addr {
        Some(address) => copy_bytes(address),
        None => {
            return Err(ContractError::NotRegistered);
        },
    };
    let reward_contract = match &agent.config.cw20_addr {
        Some(address) => copy_bytes(address),
        None => {
            return Err(ContractError::NotRegistered);
        },
    };
    let settlement = match settle(
        &position,
        &agent.state,
        info,
        now,
        claim_roll,
        exit_roll,
        unstake,
    ) {
        Ok(settlement) => settlement,
        Err(error) => {
            return Err(error);
        },
    };
    proof {
        lemma_settled_count(
            position@,
            agent.state,
            *info,
            now,
            claim_roll,
            exit_roll,
            unstake,
        );
        let slot = slot_of(agent.ledger@, token_id@);
        lemma_buildings_remove(agent.ledger@, slot);
        lemma_buildings_rebased(agent.ledger@, slot, settlement.baseline);
        if agent.rated() {
            lemma_well_rated_kept(agent.ledger@, position@, slot, settlement.baseline);
        }
    }
    let mut response = match class {
        TypeNFT::House => Response::new().add_attribute("action", "claim_house"),
        TypeNFT::Building => Response::new().add_attribute("action", "claim_building"),
    };
    if unstake {
        match agent.ledger.remove(token_id, caller) {
            Ok(_) => {},
            Err(error) => {
                return Err(error);
            },
        }
        response = response.add_message(
            Transfer::Nft {
                contract: asset_contract,
                recipient: copy_bytes(&position.owner),
                token_id: position.token_id.clone(),
            },
        );
    } else {
        match agent.ledger.rebase(token_id, settlement.baseline) {
            Ok(_) => {},
            Err(error) => {
                return Err(error);
            },
        }
    }
    agent.state = settlement.pool;
    response = response.add_message(
        Transfer::Reward {
            contract: reward_contract,
            recipient: copy_bytes(&position.owner),
            amount: settlement.payout,
        },
    );
    proof {
        let expected = claim_response(
            old(agent).config,
            position@,
            settlement.payout,
            unstake,
            class,
        );
        assert(response@.messages =~= expected.messages);
    }
    Ok(response)
}

/// Claims the reward of the house `token_id` for the caller. Both rolls for
/// damage are drawn from `random_seed`.
pub fn claim_house_from_agent(
    agent: &mut Agent,
    block: &Block,
    caller: &Caller,
    info: &HouseInfo,
    random_seed: &[u8; 32],
    token_id: &String,
    unstake: bool,
) -> (result: Result<Response, ContractError>)
    requires
        old(agent).wf(),
    ensures
        final(agent).wf(),
        old(agent).counted() ==> final(agent).counted(),
        old(agent).rated() ==> final(agent).rated(),
        final(agent).state.amount_tax >= old(agent).state.amount_tax,
        final(agent).state.tax_rate == old(agent).state.tax_rate,
        final(agent).config == old(agent).config,
        final(agent).prng_seed == old(agent).prng_seed,
        match claim_outcome(
            old(agent).ledger@,
            old(agent).state,
            old(agent).config,
            caller.canonical@,
            *info,
            block.time,
            roll_of(first_draw(random_seed@)),
            roll_of(first_draw(random_seed@)),
            token_id@,
            unstake,
            TypeNFT::House,
        ) {
            Ok(outcome) => {
                &&& result matches Ok(response)
                &&& response@ == outcome.response
                &&& final(agent).ledger@ == outcome.positions
                &&& final(agent).state == outcome.pool
            },
            Err(error) => {
                &&& result matches Err(refusal)
                &&& refusal == error
                &&& final(agent).ledger@ == old(agent).ledger@
                &&& final(agent).state == old(agent).state
            },
        },
{
    let claim_roll = roll_from_draw(draw_u64(random_seed));
    let exit_roll = roll_from_draw(draw_u64(random_seed));
    claim(
        agent,
        block.time,
        &caller.canonical,
        info,
        claim_roll,
        exit_roll,
        token_id,
        unstake,
        TypeNFT::House,
    )
}

/// Claims the reward of the building `token_id` for the caller. Both rolls
/// for damage are drawn from `random_seed`.
pub fn claim_building_from_pack(
    agent: &mut Agent,
    block: &Block,
    caller: &Caller,
    info: &HouseInfo,
    random_seed: &[u8; 32],
    token_id: &String,
    unstake: bool,
) -> (result: Result<Response, ContractError>)
    requires
        old(agent).wf(),
    ensures
        final(agent).wf(),
        old(agent).counted() ==> final(agent).counted(),
        old(agent).rated() ==> final(agent).rated(),
        final(agent).state.amount_tax >= old(agent).state.amount_tax,
        final(agent).state.tax_rate == old(agent).state.tax_rate,
        final(agent).config == old(agent).config,
        final(agent).prng_seed == old(agent).prng_seed,
        match claim_outcome(
            old(agent).ledger@,
            old(agent).state,
            old(agent).config,
            caller.canonical@,
            *info,
            block.time,
            roll_of(first_draw(random_seed@)),
            roll_of(first_draw(random_seed@)),
            token_id@,
            unstake,
            TypeNFT::Building,
        ) {
            Ok(outcome) => {
                &&& result matches Ok(response)
                &&& response@ == outcome.response
                &&& final(agent).ledger@ == outcome.positions
                &&& final(agent).state == outcome.pool
            },
            Err(error) => {
                &&& result matches Err(refusal)
                &&& refusal == error
                &&& final(agent).ledger@ == old(agent).ledger@
                &&& final(agent).state == old(agent).state
            },
        },
{
    let claim_roll = roll_from_draw(draw_u64(random_seed));
    let exit_roll = roll_from_draw(draw_u64(random_seed));
    claim(
        agent,
        block.time,
        &caller.canonical,
        info,
        claim_roll,
        exit_roll,
        token_id,
        unstake,
        TypeNFT::Building,
    )
}

} // verus!
