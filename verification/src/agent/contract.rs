//! The staking agent and the operations that the chain calls: setting it
//! up, staking a token received, claiming, and answering questions.

use vstd::prelude::*;
use crate::agent::claim::{claim_outcome, Outcome};
use crate::agent::error::ContractError;
use crate::agent::ledger::{buildings, Ledger, position_of, staking, well_rated};
use crate::agent::msg::{Block, Caller, ExecuteMsg, InstantiateMsg, OracleReport, ReceiveMsg};
use crate::agent::rating::roll_of;
use crate::agent::stake::{building_staked, house_position};
use crate::agent::state::{Config, HouseBuilding, PositionView, State, TypeNFT};
use crate::bytes::{append_bytes, be_bytes, same_bytes, to_be_bytes};
use crate::digest::{base64_encode, base64_text};
use crate::keystream::first_draw;
use crate::response::{attribute, Response, ResponseView};

pub use crate::agent::claim::{claim_building_from_pack, claim_house_from_agent};
pub use crate::agent::pool::{pay_building_tax, property_damage_tax};
pub use crate::agent::query::{
    query, query_config, query_staked_account_info, query_staked_info, query_state,
};
pub use crate::agent::stake::{staking_building, staking_house};

verus! {

/// The staking agent: its settings, the tax pool, the ledger, and the seed
/// that its random draws start from.
#[derive(Clone, Debug, PartialEq, Eq)]
pub struct Agent {
    pub config: Config,
    pub state: State,
    pub ledger: Ledger,
    pub prng_seed: Vec<u8>,
}

impl Agent {
    /// The agent is well formed when its ledger is.
    pub open spec fn wf(&self) -> bool {
        self.ledger.wf()
    }

    /// The tax pool counts the buildings that the ledger holds.
    pub open spec fn counted(&self) -> bool {
        self.state.total_building_staked == buildings(self.ledger@)
    }

    /// Every rating in the ledger is between zero and ten, and that of a
    /// building is zero.
    pub open spec fn rated(&self) -> bool {
        well_rated(self.ledger@)
    }
}

/// The response to a claim through the agent: as `response`, but told of
/// under the name of the operation.
pub open spec fn gated_response(response: ResponseView) -> ResponseView {
    ResponseView { attributes: seq![attribute("method"@, "unstake"@)], messages: response.messages }
}

/// The response to staking through the asset contract: what was done, by
/// whom, and with which token. No transfer is ordered.
pub open spec fn stake_response(caller: Seq<char>, token_id: Seq<char>) -> ResponseView {
    ResponseView {
        attributes: seq![
            attribute("method"@, "stake"@),
            attribute("sender"@, caller),
            attribute("token_id"@, token_id),
        ],
        messages: Seq::empty(),
    }
}

/// Whether the asset contract may stake through `caller`: the asset
/// contract and the minter must be registered, else `NotRegistered`, and
/// `caller` must be the asset contract, else `Unauthorized`.
pub open spec fn stake_gate(config: Config, caller: Seq<u8>) -> Result<(), ContractError> {
    if config.cw721_addr is None || config.minter is None {
        Err(ContractError::NotRegistered)
    } else if config.cw721_addr->0@ != caller {
        Err(ContractError::Unauthorized)
    } else {
        Ok(())
    }
}

/// Whether `caller` may ask the registry about `token_id` in order to claim
/// on it. A caller other than the owner recorded is refused with
/// `Unauthorized` before anything else. The minter must be registered, else
/// `NotRegistered`.
pub open spec fn claim_entry(
    positions: Seq<PositionView>,
    config: Config,
    caller: Seq<u8>,
    token_id: Seq<char>,
) -> Result<(), ContractError> {
    if position_of(positions, token_id) matches Some(position) && position.owner != caller {
        Err(ContractError::Unauthorized)
    } else if config.minter is None {
        Err(ContractError::NotRegistered)
    } else {
        Ok(())
    }
}

/// Whether `caller` may claim on `token_id`: they must pass `claim_entry`,
/// and the registry must name them as the owner of the token, else
/// `Unauthorized`.
pub open spec fn claim_gate(
    positions: Seq<PositionView>,
    config: Config,
    caller: Seq<u8>,
    registry_owner: Seq<u8>,
    token_id: Seq<char>,
) -> Result<(), ContractError> {
    match claim_entry(positions, config, caller, token_id) {
        Err(error) => Err(error),
        Ok(_) => if registry_owner != caller {
            Err(ContractError::Unauthorized)
        } else {
            Ok(())
        },
    }
}

/// The class that the registry gives a token.
pub open spec fn class_of(data: HouseBuilding) -> TypeNFT {
    if data.is_house {
        TypeNFT::House
    } else {
        TypeNFT::Building
    }
}

/// What staking through the asset contract comes to: the positions and the
/// tax pool after it. `caller` must pass `stake_gate`; then a house is
/// staked at the time `now` with the rating that `draw` gives, and a
/// building under the rate of the pool.
pub open spec fn stake_outcome(
    positions: Seq<PositionView>,
    pool: State,
    config: Config,
    caller: Seq<u8>,
    data: HouseBuilding,
    now: u64,
    draw: u64,
    token_id: Seq<char>,
    owner: Seq<u8>,
) -> Result<(Seq<PositionView>, State), ContractError> {
    match stake_gate(config, caller) {
        Err(error) => Err(error),
        Ok(_) => if data.is_house {
            match staking(positions, house_position(token_id, owner, now, draw)) {
                Err(error) => Err(error),
                Ok(staked) => Ok((staked, pool)),
            }
        } else {
            building_staked(positions, pool, token_id, owner)
        },
    }
}

/// What a claim through the agent comes to: `caller` must pass
/// `claim_gate`, and the claim is then settled for the class that the
/// registry gives the token.
pub open spec fn gated_claim_outcome(
    positions: Seq<PositionView>,
    pool: State,
    config: Config,
    caller: Seq<u8>,
    report: OracleReport,
    now: u64,
    claim_roll: u64,
    exit_roll: u64,
    token_id: Seq<char>,
    unstake: bool,
) -> Result<Outcome, ContractError> {
    match claim_gate(positions, config, caller, report.owner@, token_id) {
        Err(error) => Err(error),
        Ok(_) => match claim_outcome(
            positions,
            pool,
            config,
            caller,
            report.info,
            now,
            claim_roll,
            exit_roll,
            token_id,
            unstake,
            class_of(report.data),
        ) {
            Err(error) => Err(error),
            Ok(outcome) => Ok(
                Outcome {
                    positions: outcome.positions,
                    pool: outcome.pool,
                    response: gated_response(outcome.response),
                },
            ),
        },
    }
}

/// The bytes that the random seed of an operation on `token_id` is drawn
/// from: the height and the time of the block, each as eight bytes with the
/// most significant first, the address of the caller as it is written, the
/// token, and `entropy`.
pub open spec fn entropy_bytes(
    caller: Seq<char>,
    block: Block,
    token_id: Seq<char>,
    entropy: Seq<u8>,
) -> Seq<u8> {
    be_bytes(block.height) + be_bytes(block.time) + vstd::utf8::encode_utf8(caller)
        + vstd::utf8::encode_utf8(token_id) + entropy
}

/// The agent as it starts: owned by `sender`, with no contract registered,
/// the tax pool as `msg` gives it but with no building counted, an empty
/// ledger, and `prng_seed` as the seed of its draws.
pub fn instantiate(sender: Vec<u8>, msg: InstantiateMsg, prng_seed: Vec<u8>) -> (agent: Agent)
    ensures
        agent.wf(),
        agent.counted(),
        agent.rated(),
        agent.ledger@ == Seq::<PositionView>::empty(),
        agent.config.owner@ == sender@,
        agent.config.cw721_addr is None,
        agent.config.cw20_addr is None,
        agent.config.minter is None,
        agent.config.rand_addr is None,
        agent.state == (State {
            tax_rate: msg.tax_rate,
            amount_tax: msg.amount_tax,
            unaccounted_reward: msg.unaccounted_reward,
            total_building_staked: 0,
        }),
        agent.prng_seed@ == prng_seed@,
{
    let config = Config {
        owner: sender,
        cw721_addr: None,
        cw20_addr: None,
        minter: None,
        rand_addr: None,
    };
    let state = State {
        tax_rate: msg.tax_rate,
        amount_tax: msg.amount_tax,
        unaccounted_reward: msg.unaccounted_reward,
        total_building_staked: 0,
    };
    let ledger = Ledger::new();
    proof {
        reveal(Seq::filter);
    }
    Agent { config, state, ledger, prng_seed }
}

/// The text that the seed of the agent is the digest of: the base64 text
/// of `entropy`. An entropy of more than half the addressable bytes is
/// refused with `ArithmeticOverflow`.
pub fn seed_text(entropy: &String) -> (result: Result<String, ContractError>)
    ensures
        if vstd::utf8::encode_utf8(entropy@).len() <= usize::MAX / 2 {
            result matches Ok(text) && text@ == base64_text(vstd::utf8::encode_utf8(entropy@))
        } else {
            result matches Err(error) && error == ContractError::ArithmeticOverflow
        },
{
    let bytes = entropy.as_str().as_bytes();
    if bytes.len() > usize::MAX / 2 {
        return Err(ContractError::ArithmeticOverflow);
    }
    Ok(base64_encode(bytes))
}

/// The bytes that the random seed of an operation on `token_id` is drawn
/// from. The seed is to be drawn from them by a generator that gives the
/// same seed for the same bytes, so that the operation can be carried out
/// again with the same draws.
pub fn new_entropy(
    caller: &Caller,
    block: &Block,
    token_id: &String,
    entropy: &[u8],
) -> (bytes: Vec<u8>)
    ensures
        bytes@ == entropy_bytes(caller.address@, *block, token_id@, entropy@),
{
    let mut bytes: Vec<u8> = Vec::new();
    let height = to_be_bytes(block.height);
    let time = to_be_bytes(block.time);
    append_bytes(&mut bytes, height.as_slice());
    append_bytes(&mut bytes, time.as_slice());
    append_bytes(&mut bytes, caller.address.as_str().as_bytes());
    append_bytes(&mut bytes, token_id.as_str().as_bytes());
    append_bytes(&mut bytes, entropy);
    bytes
}

/// The class that the registry gives a token.
pub fn class_in_registry(data: &HouseBuilding) -> (class: TypeNFT)
    ensures
        class == class_of(*data),
{
    if data.is_house {
        TypeNFT::House
    } else {
        TypeNFT::Building
    }
}

/// Whether the asset contract may stake through `caller`.
pub fn may_stake(agent: &Agent, caller: &Caller) -> (result: Result<(), ContractError>)
    ensures
        result == stake_gate(agent.config, caller.canonical@),
{
    match &agent.config.cw721_addr {
        Some(address) => {
            if agent.config.minter.is_none() {
                Err(ContractError::NotRegistered)
            } else if !same_bytes(address, &caller.canonical) {
                Err(ContractError::Unauthorized)
            } else {
                Ok(())
            }
        },
        None => Err(ContractError::NotRegistered),
    }
}

/// Whether `caller` may ask the registry about `token_id` in order to claim
/// on it.
pub fn may_claim(agent: &Agent, caller: &Caller, token_id: &String) -> (result: Result<
    (),
    ContractError,
>)
    requires
        agent.wf(),
    ensures
        result == claim_entry(agent.ledger@, agent.config, caller.canonical@, token_id@),
{
    match agent.ledger.get(token_id) {
        Ok(position) => {
            if !same_bytes(&position.owner, &caller.canonical) {
                return Err(ContractError::Unauthorized);
            }
        },
        Err(_) => {},
    }
    if agent.config.minter.is_none() {
        return Err(ContractError::NotRegistered);
    }
    Ok(())
}

/// Whether `caller` may claim on `token_id`, the registry naming
/// `registry_owner` as the owner of the token.
pub fn may_claim_as(
    agent: &Agent,
    caller: &Caller,
    registry_owner: &Vec<u8>,
    token_id: &String,
) -> (result: Result<(), ContractError>)
    requires
        agent.wf(),
    ensures
        result == claim_gate(
            agent.ledger@,
            agent.config,
            caller.canonical@,
            registry_owner@,
            token_id@,
        ),
{
    match may_claim(agent, caller, token_id) {
        Ok(_) => {},
        Err(error) => {
            return Err(error);
        },
    }
    if !same_bytes(registry_owner, &caller.canonical) {
        return Err(ContractError::Unauthorized);
    }
    Ok(())
}

/// Stakes the token that the asset contract says it has received. `caller`
/// must be the asset contract; `data` is what the registry says of the
/// token, and decides whether a house or a building is staked. The token is
/// staked for the one who handed it over.
pub fn handle_stake(
    agent: &mut Agent,
    block: &Block,
    caller: &Caller,
    data: &HouseBuilding,
    random_seed: &[u8; 32],
    rcv_msg: ReceiveMsg,
) -> (result: Result<Response, ContractError>)
    requires
        old(agent).wf(),
    ensures
        final(agent).wf(),
        old(agent).counted() ==> final(agent).counted(),
        old(agent).rated() ==> final(agent).rated(),
        final(agent).state.amount_tax >= old(agent).state.amount_tax,
        final(agent).state.tax_rate == old(agent).state.tax_rate,
        final(agent).config == old(agent).config,
        final(agent).prng_seed == old(agent).prng_seed,
        match stake_outcome(
            old(agent).ledger@,
            old(agent).state,
            old(agent).config,
            caller.canonical@,
            *data,
            block.time,
            first_draw(random_seed@),
            rcv_msg.token_id@,
            rcv_msg.sender@,
        ) {
            Ok((positions, pool)) => {
                &&& result matches Ok(response)
                &&& response@ == stake_response(caller.address@, rcv_msg.token_id@)
                &&& final(agent).ledger@ == positions
                &&& final(agent).state == pool
            },
            Err(error) => {
                &&& result matches Err(refusal)
                &&& refusal == error
                &&& final(agent).ledger@ == old(agent).ledger@
                &&& final(agent).state == old(agent).state
            },
        },
{
    match may_stake(agent, caller) {
        Ok(_) => {},
        Err(error) => {
            return Err(error);
        },
    }
    let response = Response::new().add_attribute("method", "stake").add_attribute(
        "sender",
        caller.address.as_str(),
    ).add_attribute("token_id", rcv_msg.token_id.as_str());
    proof {
        let expected = stake_response(caller.address@, rcv_msg.token_id@);
        assert(response@.attributes =~= expected.attributes);
    }
    let staked_position = if data.is_house {
        staking_house(agent, block, random_seed, rcv_msg.token_id, rcv_msg.sender)
    } else {
        staking_building(agent, rcv_msg.token_id, rcv_msg.sender)
    };
    match staked_position {
        Ok(_) => Ok(response),
        Err(error) => Err(error),
    }
}

/// Claims the reward of `token_id` for `caller`, and with `unstake` gives
/// the position up. `report` is what the registry says of the token: it
/// must name `caller` as its owner, and it decides whether the token is
/// claimed as a house or as a building.
pub fn handle_claim(
    agent: &mut Agent,
    block: &Block,
    caller: &Caller,
    report: &OracleReport,
    random_seed: &[u8; 32],
    token_id: &String,
    unstake: bool,
) -> (result: Result<Response, ContractError>)
    requires
        old(agent).wf(),
    ensures
        final(agent).wf(),
        old(agent).counted() ==> final(agent).counted(),
        old(agent).rated() ==> final(agent).rated(),
        final(agent).state.amount_tax >= old(agent).state.amount_tax,
        final(agent).state.tax_rate == old(agent).state.tax_rate,
        final(agent).config == old(agent).config,
        final(agent).prng_seed == old(agent).prng_seed,
        match gated_claim_outcome(
            old(agent).ledger@,
            old(agent).state,
            old(agent).config,
            caller.canonical@,
            *report,
            block.time,
            roll_of(first_draw(random_seed@)),
            roll_of(first_draw(random_seed@)),
            token_id@,
            unstake,
        ) {
            Ok(outcome) => {
                &&& result matches Ok(response)
                &&& response@ == outcome.response
                &&& final(agent).ledger@ == outcome.positions
                &&& final(agent).state == outcome.pool
            },
            Err(error) => {
                &&& result matches Err(refusal)
                &&& refusal == error
                &&& final(agent).ledger@ == old(agent).ledger@
                &&& final(agent).state == old(agent).state
            },
        },
{
    match may_claim_as(agent, caller, &report.owner, token_id) {
        Ok(_) => {},
        Err(error) => {
            return Err(error);
        },
    }
    let claimed = match class_in_registry(&report.data) {
        TypeNFT::House => claim_house_from_agent(
            agent,
            block,
            caller,
            &report.info,
            random_seed,
            token_id,
            unstake,
        ),
        TypeNFT::Building => claim_building_from_pack(
            agent,
            block,
            caller,
            &report.info,
            random_seed,
            token_id,
            unstake,
        ),
    };
    match claimed {
        Ok(inner) => {
            let mut response = Response::new().add_attribute("method", "unstake");
            response.messages = inner.messages;
            Ok(response)
        },
        Err(error) => Err(error),
    }
}

/// Carries `msg` out: a token received is staked, a claim is settled.
pub fn execute(
    agent: &mut Agent,
    block: &Block,
    caller: &Caller,
    report: &OracleReport,
    random_seed: &[u8; 32],
    msg: ExecuteMsg,
) -> (result: Result<Response, ContractError>)
    requires
        old(agent).wf(),
    ensures
        final(agent).wf(),
        old(agent).counted() ==> final(agent).counted(),
        old(agent).rated() ==> final(agent).rated(),
        final(agent).state.amount_tax >= old(agent).state.amount_tax,
        final(agent).state.tax_rate == old(agent).state.tax_rate,
        final(agent).config == old(agent).config,
        final(agent).prng_seed == old(agent).prng_seed,
        match msg {
            ExecuteMsg::ReceiveNft(rcv_msg) => match stake_outcome(
                old(agent).ledger@,
                old(agent).state,
                old(agent).config,
                caller.canonical@,
                report.data,
                block.time,
                first_draw(random_seed@),
                rcv_msg.token_id@,
                rcv_msg.sender@,
            ) {
                Ok((positions, pool)) => {
                    &&& result matches Ok(response)
                    &&& response@ == stake_response(caller.address@, rcv_msg.token_id@)
                    &&& final(agent).ledger@ == positions
                    &&& final(agent).state == pool
                },
                Err(error) => {
                    &&& result matches Err(refusal)
                    &&& refusal == error
                    &&& final(agent).ledger@ == old(agent).ledger@
                    &&& final(agent).state == old(agent).state
                },
            },
            ExecuteMsg::Claim { token_id, unstake } => match gated_claim_outcome(
                old(agent).ledger@,
                old(agent).state,
                old(agent).config,
                caller.canonical@,
                *report,
                block.time,
                roll_of(first_draw(random_seed@)),
                roll_of(first_draw(random_seed@)),
                token_id@,
                unstake,
            ) {
                Ok(outcome) => {
                    &&& result matches Ok(response)
                    &&& response@ == outcome.response
                    &&& final(agent).ledger@ == outcome.positions
                    &&& final(agent).state == outcome.pool
                },
                Err(error) => {
                    &&& result matches Err(refusal)
                    &&& refusal == error
                    &&& final(agent).ledger@ == old(agent).ledger@
                    &&& final(agent).state == old(agent).state
                },
            },
        },
{
    match msg {
        ExecuteMsg::ReceiveNft(rcv_msg) => handle_stake(
            agent,
            block,
            caller,
            &report.data,
            random_seed,
            rcv_msg,
        ),
        ExecuteMsg::Claim { token_id, unstake } => handle_claim(
            agent,
            block,
            caller,
            report,
            random_seed,
            &token_id,
            unstake,
        ),
    }
}

} // verus!
