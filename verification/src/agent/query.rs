//! The questions that the agent answers.

use vstd::prelude::*;
use crate::agent::contract::Agent;
use crate::agent::error::ContractError;
use crate::agent::ledger::{position_of, positions_of};
use crate::agent::msg::{ConfigResponse, QueryAnswer, QueryMsg, StakedInfoResponse, StateResponse};
use crate::agent::state::{Config, PositionView, StakedAccountInfo, State};
use crate::bytes::copy_bytes;

verus! {

/// Whether `response` shows the settings `config`, every contract of which
/// is registered.
pub open spec fn shows_config(response: ConfigResponse, config: Config) -> bool {
    &&& response.owner@ == config.owner@
    &&& config.cw721_addr matches Some(address) && response.cw721_addr@ == address@
    &&& config.cw20_addr matches Some(address) && response.cw20_addr@ == address@
    &&& config.minter matches Some(address) && response.minter@ == address@
    &&& config.rand_addr matches Some(address) && response.rand_addr@ == address@
}

/// Whether every contract of `config` is registered.
pub open spec fn all_registered(config: Config) -> bool {
    &&& config.cw721_addr is Some
    &&& config.cw20_addr is Some
    &&& config.minter is Some
    &&& config.rand_addr is Some
}

/// Whether `response` shows the tax pool `state`.
pub open spec fn shows_state(response: StateResponse, state: State) -> bool {
    &&& response.tax_rate == state.tax_rate
    &&& response.amount_tax == state.amount_tax
    &&& response.unaccounted_reward == state.unaccounted_reward
    &&& response.total_building_staked == state.total_building_staked
}

/// Whether `response` shows `position`.
pub open spec fn shows(response: StakedInfoResponse, position: PositionView) -> bool {
    &&& response.token_id@ == position.token_id
    &&& response.owner@ == position.owner
    &&& response.value == position.value
    &&& response.type_nft == position.type_nft
    &&& response.ternant_rating == position.ternant_rating
}

/// Whether `responses` show `positions`, one for one and in order.
pub open spec fn show_all(responses: Seq<StakedInfoResponse>, positions: Seq<PositionView>) -> bool {
    &&& responses.len() == positions.len()
    &&& forall|k: int| 0 <= k < responses.len() ==> shows(#[trigger] responses[k], positions[k])
}

/// The answer that shows `position`.
pub fn staked_info_response(position: &StakedAccountInfo) -> (response: StakedInfoResponse)
    ensures
        shows(response, position@),
{
    StakedInfoResponse {
        token_id: position.token_id.clone(),
        owner: copy_bytes(&position.owner),
        value: position.value,
        type_nft: position.type_nft,
        ternant_rating: position.ternant_rating,
    }
}

/// The settings of the agent, or `NotRegistered` while a contract is not
/// registered.
pub fn query_config(agent: &Agent) -> (result: Result<ConfigResponse, ContractError>)
    ensures
        match result {
            Ok(response) => shows_config(response, agent.config),
            Err(error) => error == ContractError::NotRegistered && !all_registered(agent.config),
        },
{
    let cw721_addr = match &agent.config.cw721_addr {
        Some(address) => copy_bytes(address),
        None => {
            return Err(ContractError::NotRegistered);
        },
    };
    let cw20_addr = match &agent.config.cw20_addr {
        Some(address) => copy_bytes(address),
        None => {
            return Err(ContractError::NotRegistered);
        },
    };
    let minter = match &agent.config.minter {
        Some(address) => copy_bytes(address),
        None => {
            return Err(ContractError::NotRegistered);
        },
    };
    let rand_addr = match &agent.config.rand_addr {
        Some(address) => copy_bytes(address),
        None => {
            return Err(ContractError::NotRegistered);
        },
    };
    Ok(
        ConfigResponse {
            owner: copy_bytes(&agent.config.owner),
            cw721_addr,
            cw20_addr,
            minter,
            rand_addr,
        },
    )
}

/// The tax pool of the agent.
pub fn query_state(agent: &Agent) -> (response: StateResponse)
    ensures
        shows_state(response, agent.state),
{
    StateResponse {
        tax_rate: agent.state.tax_rate,
        amount_tax: agent.state.amount_tax,
        unaccounted_reward: agent.state.unaccounted_reward,
        total_building_staked: agent.state.total_building_staked,
    }
}

/// The position kept under the key `account`, or `NotStaked` where there
/// is none.
pub fn query_staked_info(agent: &Agent, account: &String) -> (result: Result<
    StakedInfoResponse,
    ContractError,
>)
    requires
        agent.wf(),
    ensures
        match result {
            Ok(response) => position_of(agent.ledger@, account@) matches Some(position) && shows(
                response,
                position,
            ),
            Err(error) => error == ContractError::NotStaked && position_of(
                agent.ledger@,
                account@,
            ) is None,
        },
{
    match agent.ledger.get(account) {
        Ok(position) => Ok(staked_info_response(&position)),
        Err(error) => Err(error),
    }
}

/// The positions that the owner with the canonical address `raw_account`
/// owns, in the order of staking.
pub fn query_staked_account_info(agent: &Agent, raw_account: &Vec<u8>) -> (result: Vec<
    StakedInfoResponse,
>)
    requires
        agent.wf(),
    ensures
        show_all(result@, positions_of(agent.ledger@, raw_account@)),
{
    let account_infos = agent.ledger.list(raw_account);
    let mut res_account_infos: Vec<StakedInfoResponse> = Vec::new();
    let mut k: usize = 0;
    while k < account_infos.len()
        invariant
            k <= account_infos@.len(),
            account_infos@.len() == positions_of(agent.ledger@, raw_account@).len(),
            forall|n: int|
                0 <= n < account_infos@.len() ==> (#[trigger] account_infos@[n])@ == positions_of(
                    agent.ledger@,
                    raw_account@,
                )[n],
            res_account_infos@.len() == k,
            forall|n: int|
                0 <= n < k ==> shows(
                    #[trigger] res_account_infos@[n],
                    positions_of(agent.ledger@, raw_account@)[n],
                ),
        decreases account_infos@.len() - k,
    {
        res_account_infos.push(staked_info_response(&account_infos[k]));
        k += 1;
    }
    res_account_infos
}

/// The answer to `msg`. `raw_account` is the canonical address of the
/// account that `GetStakedAccountInfo` names.
pub fn query(agent: &Agent, msg: &QueryMsg, raw_account: &Vec<u8>) -> (result: Result<
    QueryAnswer,
    ContractError,
>)
    requires
        agent.wf(),
    ensures
        match msg {
            QueryMsg::GetConfig {  } => match result {
                Ok(answer) => answer matches QueryAnswer::Config(response) && shows_config(
                    response,
                    agent.config,
                ),
                Err(error) => error == ContractError::NotRegistered && !all_registered(
                    agent.config,
                ),
            },
            QueryMsg::GetState {  } => result matches Ok(QueryAnswer::State(response))
                && shows_state(response, agent.state),
            QueryMsg::GetStakedInfo { account } => match result {
                Ok(answer) => answer matches QueryAnswer::StakedInfo(response) && position_of(
                    agent.ledger@,
                    account@,
                ) matches Some(position) && shows(response, position),
                Err(error) => error == ContractError::NotStaked && position_of(
                    agent.ledger@,
                    account@,
                ) is None,
            },
            QueryMsg::GetStakedAccountInfo { account } => result matches Ok(
                QueryAnswer::StakedAccountInfo(responses),
            ) && show_all(responses@, positions_of(agent.ledger@, raw_account@)),
        },
{
    match msg {
        QueryMsg::GetConfig {  } => match query_config(agent) {
            Ok(response) => Ok(QueryAnswer::Config(response)),
            Err(error) => Err(error),
        },
        QueryMsg::GetState {  } => Ok(QueryAnswer::State(query_state(agent))),
        QueryMsg::GetStakedInfo { account } => match query_staked_info(agent, account) {
            Ok(response) => Ok(QueryAnswer::StakedInfo(response)),
            Err(error) => Err(error),
        },
        QueryMsg::GetStakedAccountInfo { account: _ } => Ok(
            QueryAnswer::StakedAccountInfo(query_staked_account_info(agent, raw_account)),
        ),
    }
}

} // verus!
