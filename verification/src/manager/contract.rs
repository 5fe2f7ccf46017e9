//! The command dispatcher of the manager contract.
//!
//! A command is first authorised against the owners. A call of the remote
//! contract then looks up the chain, reads its arguments and encodes them; a
//! local relay builds the call of the other contract; an administrative
//! command changes the state. A command that fails changes nothing.

use crate::abi::{
    abi_encoding, call_encoding, encode, encoded_len, lemma_first_fault,
    lemma_validation_without_text, parse_address, parsed_address, selector, token_len, Token,
    TokenView,
};
use crate::addr::Addr;
use crate::catalog::RemoteFunction;
use crate::cosmos::{action, noted, relayed, CosmosMsg, CosmosMsgView, Response, ResponseView};
use crate::error::ContractError;
use crate::external::opt_text;
use crate::manager::msg::{
    ExecuteJob, ExecuteJobView, ExecuteMsg, InstantiateMsg, PalomaMsg, PalomaMsgView, QueryMsg,
    QueryResponse, QueryResponseView,
};
use crate::manager::state::{ChainRegistry, ChainSetting, ChainSettingView, State, StateView};
use crate::owners::{
    lemma_with_owners_grows, lemma_with_owners_no_duplicates, lemma_with_owners_of_members,
    lemma_without_owner, with_owners, without_owner,
};
use crate::relay::{
    cancel_withdraw, re_withdraw, spec_cancel_withdraw, spec_re_withdraw, spec_swap,
    spec_withdraw, swap, withdraw,
};
use crate::uint::{lemma_uint256_bound, Uint256};
use vstd::arithmetic::power2::{lemma_pow2_strictly_increases, pow2};
use vstd::prelude::*;
use vstd::utf8::encode_utf8;

verus! {

/// The argument that the text of a remote address stands for.
pub open spec fn address_argument(text: Seq<char>) -> Result<TokenView, ContractError> {
    match parsed_address(text) {
        Some(bytes) => Ok(TokenView::Address(bytes)),
        None => Err(ContractError::InvalidPrincipal),
    }
}

/// The single argument that the text of a remote address stands for.
pub open spec fn one_address(text: Seq<char>) -> Result<Seq<TokenView>, ContractError> {
    match address_argument(text) {
        Ok(address) => Ok(seq![address]),
        Err(e) => Err(e),
    }
}

/// The arguments of `deploy_erc20`.
pub open spec fn deploy_arguments(
    paloma_denom: Seq<char>,
    name: Seq<char>,
    symbol: Seq<char>,
    decimals: u8,
    blueprint: Seq<char>,
) -> Result<Seq<TokenView>, ContractError> {
    match address_argument(blueprint) {
        Ok(blueprint) => Ok(
            seq![
                TokenView::String(paloma_denom),
                TokenView::String(name),
                TokenView::String(symbol),
                TokenView::Uint(decimals as nat),
                blueprint,
            ],
        ),
        Err(e) => Err(e),
    }
}

/// The arguments of `send_token`.
pub open spec fn send_arguments(token: Seq<char>, to: Seq<char>, amount: u128, nonce: u128) -> Result<
    Seq<TokenView>,
    ContractError,
> {
    match address_argument(token) {
        Ok(token) => match address_argument(to) {
            Ok(to) => Ok(
                seq![token, to, TokenView::Uint(amount as nat), TokenView::Uint(nonce as nat)],
            ),
            Err(e) => Err(e),
        },
        Err(e) => Err(e),
    }
}

/// The message that asks the relay to deliver `payload` under `job_id`.
pub open spec fn scheduled(job_id: Seq<char>, payload: Seq<u8>) -> CosmosMsgView<PalomaMsgView> {
    CosmosMsgView::Custom(
        PalomaMsgView::SchedulerMsg { execute_job: ExecuteJobView { job_id, payload } },
    )
}

/// The answer to a call of `function` on the chain `chain_id`: the chain
/// must be registered, the arguments must have been read, and they must
/// encode; the one message then carries the payload under the job of the
/// chain that serves the function.
pub open spec fn remote_response(
    chain_settings: Map<Seq<char>, ChainSettingView>,
    chain_id: Seq<char>,
    function: RemoteFunction,
    arguments: Result<Seq<TokenView>, ContractError>,
    attributes: Seq<(Seq<char>, Seq<char>)>,
) -> Result<ResponseView<PalomaMsgView>, ContractError> {
    if !chain_settings.contains_key(chain_id) {
        Err(ContractError::NotFound)
    } else {
        match arguments {
            Err(e) => Err(e),
            Ok(tokens) => match call_encoding(function.spec_signature(), tokens) {
                Err(e) => Err(e),
                Ok(payload) => Ok(
                    ResponseView {
                        messages: seq![
                            scheduled(function.spec_job_id(chain_settings[chain_id]), payload),
                        ],
                        attributes,
                    },
                ),
            },
        }
    }
}

/// The chain that a command calls the remote contract on, if it calls it.
pub open spec fn remote_chain(msg: ExecuteMsg) -> Option<Seq<char>> {
    match msg {
        ExecuteMsg::DeployPalomaErc20 { chain_id, .. } => Some(chain_id@),
        ExecuteMsg::SendToken { chain_id, .. } => Some(chain_id@),
        ExecuteMsg::SetPaloma { chain_id } => Some(chain_id@),
        ExecuteMsg::UpdateCompass { chain_id, .. } => Some(chain_id@),
        ExecuteMsg::UpdateRefundWallet { chain_id, .. } => Some(chain_id@),
        ExecuteMsg::UpdateGasFee { chain_id, .. } => Some(chain_id@),
        ExecuteMsg::UpdateServiceFeeCollector { chain_id, .. } => Some(chain_id@),
        ExecuteMsg::UpdateServiceFee { chain_id, .. } => Some(chain_id@),
        _ => None,
    }
}

/// The answer to a command of an owner, or the error that rejects it.
pub open spec fn response_to(
    state: StateView,
    chain_settings: Map<Seq<char>, ChainSettingView>,
    msg: ExecuteMsg,
) -> Result<ResponseView<PalomaMsgView>, ContractError> {
    match msg {
        ExecuteMsg::DeployPalomaErc20 {
            chain_id,
            paloma_denom,
            name,
            symbol,
            decimals,
            blueprint,
        } => remote_response(
            chain_settings,
            chain_id@,
            RemoteFunction::DeployErc20,
            deploy_arguments(paloma_denom@, name@, symbol@, decimals, blueprint@),
            action("deploy_paloma_erc20"@),
        ),
        ExecuteMsg::Exchange {
            dex_router,
            operations,
            minimum_receive,
            to,
            max_spread,
            funds,
        } => Ok(
            relayed(
                spec_swap(
                    dex_router@,
                    operations.deep_view(),
                    minimum_receive,
                    opt_text(to),
                    max_spread,
                    funds.deep_view(),
                ),
                "exchange"@,
            ),
        ),
        ExecuteMsg::SendToken { chain_id, token, to, amount, nonce } => remote_response(
            chain_settings,
            chain_id@,
            RemoteFunction::SendToken,
            send_arguments(token@, to@, amount, nonce),
            action("send_token"@),
        ),
        ExecuteMsg::WithdrawPusd { pusd_manager, chain_id, recipient, amount } => Ok(
            relayed(spec_withdraw(pusd_manager@, chain_id@, recipient@, amount), "withdraw_pusd"@),
        ),
        ExecuteMsg::ReWithdrawPusd { pusd_manager, nonce } => Ok(
            relayed(spec_re_withdraw(pusd_manager@, nonce), "re_withdraw_pusd"@),
        ),
        ExecuteMsg::CancelWithdrawPusd { pusd_manager, nonce } => Ok(
            relayed(spec_cancel_withdraw(pusd_manager@, nonce), "cancel_withdraw_pusd"@),
        ),
        ExecuteMsg::SetChainSetting { .. } => Ok(noted("set_chain_setting"@)),
        ExecuteMsg::SetPaloma { chain_id } => remote_response(
            chain_settings,
            chain_id@,
            RemoteFunction::SetPaloma,
            Ok(seq![]),
            action("set_paloma"@),
        ),
        ExecuteMsg::UpdateCompass { chain_id, new_compass } => remote_response(
            chain_settings,
            chain_id@,
            RemoteFunction::UpdateCompass,
            one_address(new_compass@),
            seq![
                ("action"@, "update_compass"@),
                ("chain_id"@, chain_id@),
                ("new_compass"@, new_compass@),
            ],
        ),
        ExecuteMsg::UpdateRefundWallet { chain_id, new_refund_wallet } => remote_response(
            chain_settings,
            chain_id@,
            RemoteFunction::UpdateRefundWallet,
            one_address(new_refund_wallet@),
            action("update_refund_wallet"@),
        ),
        ExecuteMsg::UpdateGasFee { chain_id, new_gas_fee } => remote_response(
            chain_settings,
            chain_id@,
            RemoteFunction::UpdateGasFee,
            Ok(seq![TokenView::Uint(new_gas_fee@)]),
            action("update_gas_fee"@),
        ),
        ExecuteMsg::UpdateServiceFeeCollector {
            chain_id,
            new_service_fee_collector,
        } => remote_response(
            chain_settings,
            chain_id@,
            RemoteFunction::UpdateServiceFeeCollector,
            one_address(new_service_fee_collector@),
            action("update_service_fee_collector"@),
        ),
        ExecuteMsg::UpdateServiceFee { chain_id, new_service_fee } => remote_response(
            chain_settings,
            chain_id@,
            RemoteFunction::UpdateServiceFee,
            Ok(seq![TokenView::Uint(new_service_fee@)]),
            action("update_service_fee"@),
        ),
        ExecuteMsg::UpdateConfig { .. } => Ok(noted("update_config"@)),
        ExecuteMsg::AddOwner { .. } => Ok(noted("update_config"@)),
        ExecuteMsg::RemoveOwner { owner } => if state.owners.contains(owner@) {
            Ok(noted("update_config"@))
        } else {
            Err(ContractError::NotFound)
        },
    }
}

/// The owners and the configuration after a command that succeeded.
pub open spec fn state_after(state: StateView, msg: ExecuteMsg) -> StateView {
    match msg {
        ExecuteMsg::UpdateConfig { retry_delay: Some(retry_delay) } => StateView {
            owners: state.owners,
            retry_delay,
        },
        ExecuteMsg::AddOwner { owners } => StateView {
            owners: with_owners(state.owners, owners.deep_view()),
            retry_delay: state.retry_delay,
        },
        ExecuteMsg::RemoveOwner { owner } => StateView {
            owners: without_owner(state.owners, owner@),
            retry_delay: state.retry_delay,
        },
        _ => state,
    }
}

/// The chain settings after a command that succeeded.
pub open spec fn chain_settings_after(
    chain_settings: Map<Seq<char>, ChainSettingView>,
    msg: ExecuteMsg,
) -> Map<Seq<char>, ChainSettingView> {
    match msg {
        ExecuteMsg::SetChainSetting {
            chain_id,
            compass_job_id,
            main_job_id,
        } => chain_settings.insert(
            chain_id@,
            ChainSettingView { compass_job_id: compass_job_id@, main_job_id: main_job_id@ },
        ),
        _ => chain_settings,
    }
}

/// What a command that succeeded leaves behind and hands back.
pub struct Outcome {
    pub state: StateView,
    pub chain_settings: Map<Seq<char>, ChainSettingView>,
    pub response: ResponseView<PalomaMsgView>,
}

/// The outcome of the command `msg` of `sender`: `Unauthorized` unless
/// `sender` is an owner; else the error that rejects the command, or the
/// new state with the answer.
pub open spec fn execute_outcome(
    state: StateView,
    chain_settings: Map<Seq<char>, ChainSettingView>,
    sender: Seq<char>,
    msg: ExecuteMsg,
) -> Result<Outcome, ContractError> {
    if !state.owners.contains(sender) {
        Err(ContractError::Unauthorized)
    } else {
        match response_to(state, chain_settings, msg) {
            Err(e) => Err(e),
            Ok(response) => Ok(
                Outcome {
                    state: state_after(state, msg),
                    chain_settings: chain_settings_after(chain_settings, msg),
                    response,
                },
            ),
        }
    }
}

/// Sets the contract up with the owners and the delay of `msg`.
pub fn instantiate(msg: InstantiateMsg) -> (r: (State, Response<PalomaMsg>))
    ensures
        r.0@ == (StateView {
            owners: with_owners(Seq::empty(), msg.owners.deep_view()),
            retry_delay: msg.retry_delay,
        }),
        r.0@.owners.no_duplicates(),
        r.1@ == noted::<PalomaMsgView>("instantiate"@),
{
    let state = State::new(&msg.owners, msg.retry_delay);
    (state, Response::new().add_attribute("action", "instantiate"))
}

/// The arguments of `deploy_erc20`, given the bytes of the blueprint's
/// address.
pub fn deploy_tokens(
    paloma_denom: String,
    name: String,
    symbol: String,
    decimals: u8,
    blueprint: [u8; 20],
) -> (tokens: Vec<Token>)
    ensures
        tokens.deep_view() == seq![
            TokenView::String(paloma_denom@),
            TokenView::String(name@),
            TokenView::String(symbol@),
            TokenView::Uint(decimals as nat),
            TokenView::Address(blueprint@),
        ],
{
    let tokens = vec![
        Token::String(paloma_denom),
        Token::String(name),
        Token::String(symbol),
        Token::Uint(Uint256::from_u8(decimals)),
        Token::Address(blueprint),
    ];
    assert(tokens.deep_view() =~= seq![
        TokenView::String(paloma_denom@),
        TokenView::String(name@),
        TokenView::String(symbol@),
        TokenView::Uint(decimals as nat),
        TokenView::Address(blueprint@),
    ]);
    tokens
}

/// The arguments of `send_token`, given the bytes of the two addresses.
pub fn send_tokens(token: [u8; 20], to: [u8; 20], amount: u128, nonce: u128) -> (tokens: Vec<
    Token,
>)
    ensures
        tokens.deep_view() == seq![
            TokenView::Address(token@),
            TokenView::Address(to@),
            TokenView::Uint(amount as nat),
            TokenView::Uint(nonce as nat),
        ],
{
    let tokens = vec![
        Token::Address(token),
        Token::Address(to),
        Token::Uint(Uint256::from_u128(amount)),
        Token::Uint(Uint256::from_u128(nonce)),
    ];
    assert(tokens.deep_view() =~= seq![
        TokenView::Address(token@),
        TokenView::Address(to@),
        TokenView::Uint(amount as nat),
        TokenView::Uint(nonce as nat),
    ]);
    tokens
}

/// The message that asks the relay to deliver `payload` under `job_id`.
pub fn job_message(job_id: String, payload: Vec<u8>) -> (msg: CosmosMsg<PalomaMsg>)
    ensures
        msg@ == scheduled(job_id@, payload@),
{
    CosmosMsg::Custom(PalomaMsg::SchedulerMsg { execute_job: ExecuteJob { job_id, payload } })
}

/// Reads the address `text` as an argument of a remote call.
fn address_token(text: &String) -> (r: Result<Token, ContractError>)
    ensures
        address_argument(text@) == match r {
            Ok(token) => Ok::<TokenView, ContractError>(token@),
            Err(e) => Err(e),
        },
{
    match parse_address(text.as_str()) {
        Ok(bytes) => Ok(Token::Address(bytes)),
        Err(e) => Err(e),
    }
}

/// Encodes a call of `function` with `tokens` and wraps it for the relay
/// job of `setting` that serves the function.
fn schedule(setting: &ChainSetting, function: RemoteFunction, tokens: &Vec<Token>) -> (r: Result<
    CosmosMsg<PalomaMsg>,
    ContractError,
>)
    ensures
        match r {
            Ok(msg) => call_encoding(function.spec_signature(), tokens.deep_view()) matches Ok(
                payload,
            ) && msg@ == scheduled(function.spec_job_id(setting@), payload),
            Err(e) => call_encoding(function.spec_signature(), tokens.deep_view()) == Err::<
                Seq<u8>,
                ContractError,
            >(e),
        },
{
    let payload = encode(&function.signature(), tokens)?;
    Ok(job_message(function.job_id(setting), payload))
}

/// Calls `function` with the one address that `text` spells.
fn call_with_address(
    chain_settings: &ChainRegistry,
    chain_id: &String,
    function: RemoteFunction,
    text: &String,
) -> (r: Result<CosmosMsg<PalomaMsg>, ContractError>)
    ensures
        match r {
            Ok(msg) => remote_response(
                chain_settings@,
                chain_id@,
                function,
                one_address(text@),
                seq![],
            ) matches Ok(response) && response.messages == seq![msg@],
            Err(e) => remote_response(
                chain_settings@,
                chain_id@,
                function,
                one_address(text@),
                seq![],
            ) == Err::<ResponseView<PalomaMsgView>, ContractError>(e),
        },
{
    let setting = chain_settings.get(chain_id)?;
    let address = address_token(text)?;
    let tokens = vec![address];
    assert(tokens.deep_view() =~= seq![address@]);
    schedule(&setting, function, &tokens)
}

/// Calls `function` with the one number `number`.
fn call_with_number(
    chain_settings: &ChainRegistry,
    chain_id: &String,
    function: RemoteFunction,
    number: Uint256,
) -> (r: Result<CosmosMsg<PalomaMsg>, ContractError>)
    ensures
        match r {
            Ok(msg) => remote_response(
                chain_settings@,
                chain_id@,
                function,
                Ok(seq![TokenView::Uint(number@)]),
                seq![],
            ) matches Ok(response) && response.messages == seq![msg@],
            Err(e) => remote_response(
                chain_settings@,
                chain_id@,
                function,
                Ok(seq![TokenView::Uint(number@)]),
                seq![],
            ) == Err::<ResponseView<PalomaMsgView>, ContractError>(e),
        },
{
    let setting = chain_settings.get(chain_id)?;
    let tokens = vec![Token::Uint(number)];
    assert(tokens.deep_view() =~= seq![TokenView::Uint(number@)]);
    schedule(&setting, function, &tokens)
}

/// Carries out the command `msg` of `sender`.
pub fn execute(
    state: &mut State,
    chain_settings: &mut ChainRegistry,
    sender: &Addr,
    msg: ExecuteMsg,
) -> (r: Result<Response<PalomaMsg>, ContractError>)
    ensures
        match r {
            Ok(response) => execute_outcome(old(state)@, old(chain_settings)@, sender@, msg) == Ok::<
                Outcome,
                ContractError,
            >(
                Outcome {
                    state: final(state)@,
                    chain_settings: final(chain_settings)@,
                    response: response@,
                },
            ),
            Err(e) => execute_outcome(old(state)@, old(chain_settings)@, sender@, msg) == Err::<
                Outcome,
                ContractError,
            >(e) && final(state)@ == old(state)@ && final(chain_settings)@ == old(
                chain_settings,
            )@,
        },
{
    state.owners.authorize(sender)?;
    match msg {
        ExecuteMsg::DeployPalomaErc20 {
            chain_id,
            paloma_denom,
            name,
            symbol,
            decimals,
            blueprint,
        } => {
            let setting = chain_settings.get(&chain_id)?;
            let blueprint = parse_address(blueprint.as_str())?;
            let tokens = deploy_tokens(paloma_denom, name, symbol, decimals, blueprint);
            let job = schedule(&setting, RemoteFunction::DeployErc20, &tokens)?;
            Ok(Response::new().add_message(job).add_attribute("action", "deploy_paloma_erc20"))
        },
        ExecuteMsg::Exchange { dex_router, operations, minimum_receive, to, max_spread, funds } => {
            let call = swap(&dex_router, operations, minimum_receive, to, max_spread, funds);
            Ok(Response::new().add_message(CosmosMsg::Wasm(call)).add_attribute("action", "exchange"))
        },
        ExecuteMsg::SendToken { chain_id, token, to, amount, nonce } => {
            let setting = chain_settings.get(&chain_id)?;
            let token = parse_address(token.as_str())?;
            let to = parse_address(to.as_str())?;
            let tokens = send_tokens(token, to, amount, nonce);
            let job = schedule(&setting, RemoteFunction::SendToken, &tokens)?;
            Ok(Response::new().add_message(job).add_attribute("action", "send_token"))
        },
        ExecuteMsg::WithdrawPusd { pusd_manager, chain_id, recipient, amount } => {
            let call = withdraw(&pusd_manager, chain_id, recipient, amount);
            Ok(
                Response::new().add_message(CosmosMsg::Wasm(call)).add_attribute(
                    "action",
                    "withdraw_pusd",
                ),
            )
        },
        ExecuteMsg::ReWithdrawPusd { pusd_manager, nonce } => {
            let call = re_withdraw(&pusd_manager, nonce);
            Ok(
                Response::new().add_message(CosmosMsg::Wasm(call)).add_attribute(
                    "action",
                    "re_withdraw_pusd",
                ),
            )
        },
        ExecuteMsg::CancelWithdrawPusd { pusd_manager, nonce } => {
            let call = cancel_withdraw(&pusd_manager, nonce);
            Ok(
                Response::new().add_message(CosmosMsg::Wasm(call)).add_attribute(
                    "action",
                    "cancel_withdraw_pusd",
                ),
            )
        },
        ExecuteMsg::SetChainSetting { chain_id, compass_job_id, main_job_id } => {
            chain_settings.set(chain_id, ChainSetting { compass_job_id, main_job_id });
            Ok(Response::new().add_attribute("action", "set_chain_setting"))
        },
        ExecuteMsg::SetPaloma { chain_id } => {
            let setting = chain_settings.get(&chain_id)?;
            let tokens: Vec<Token> = Vec::new();
            assert(tokens.deep_view() =~= seq![]);
            let job = schedule(&setting, RemoteFunction::SetPaloma, &tokens)?;
            Ok(Response::new().add_message(job).add_attribute("action", "set_paloma"))
        },
        ExecuteMsg::UpdateCompass { chain_id, new_compass } => {
            let job = call_with_address(
                chain_settings,
                &chain_id,
                RemoteFunction::UpdateCompass,
                &new_compass,
            )?;
            let response = Response::new().add_message(job).add_attribute(
                "action",
                "update_compass",
            ).add_attribute("chain_id", chain_id.as_str()).add_attribute(
                "new_compass",
                new_compass.as_str(),
            );
            assert(response@.attributes =~= seq![
                ("action"@, "update_compass"@),
                ("chain_id"@, chain_id@),
                ("new_compass"@, new_compass@),
            ]);
            Ok(response)
        },
        ExecuteMsg::UpdateRefundWallet { chain_id, new_refund_wallet } => {
            let job = call_with_address(
                chain_settings,
                &chain_id,
                RemoteFunction::UpdateRefundWallet,
                &new_refund_wallet,
            )?;
            Ok(Response::new().add_message(job).add_attribute("action", "update_refund_wallet"))
        },
        ExecuteMsg::UpdateGasFee { chain_id, new_gas_fee } => {
            let job = call_with_number(
                chain_settings,
                &chain_id,
                RemoteFunction::UpdateGasFee,
                new_gas_fee,
            )?;
            Ok(Response::new().add_message(job).add_attribute("action", "update_gas_fee"))
        },
        ExecuteMsg::UpdateServiceFeeCollector { chain_id, new_service_fee_collector } => {
            let job = call_with_address(
                chain_settings,
                &chain_id,
                RemoteFunction::UpdateServiceFeeCollector,
                &new_service_fee_collector,
            )?;
            Ok(
                Response::new().add_message(job).add_attribute(
                    "action",
                    "update_service_fee_collector",
                ),
            )
        },
        ExecuteMsg::UpdateServiceFee { chain_id, new_service_fee } => {
            let job = call_with_number(
                chain_settings,
                &chain_id,
                RemoteFunction::UpdateServiceFee,
                new_service_fee,
            )?;
            Ok(Response::new().add_message(job).add_attribute("action", "update_service_fee"))
        },
        ExecuteMsg::UpdateConfig { retry_delay } => {
            if let Some(retry_delay) = retry_delay {
                state.retry_delay = retry_delay;
            }
            Ok(Response::new().add_attribute("action", "update_config"))
        },
        ExecuteMsg::AddOwner { owners } => {
            state.owners.add_all(&owners);
            Ok(Response::new().add_attribute("action", "update_config"))
        },
        ExecuteMsg::RemoveOwner { owner } => {
            state.owners.remove(&owner)?;
            Ok(Response::new().add_attribute("action", "update_config"))
        },
    }
}

/// The answer to the question `msg`: the state as it is, or the setting of
/// a chain, which must be registered.
pub open spec fn query_outcome(
    state: StateView,
    chain_settings: Map<Seq<char>, ChainSettingView>,
    msg: QueryMsg,
) -> Result<QueryResponseView, ContractError> {
    match msg {
        QueryMsg::GetState {  } => Ok(QueryResponseView::State(state)),
        QueryMsg::GetChainSetting { chain_id } => if chain_settings.contains_key(chain_id@) {
            Ok(QueryResponseView::ChainSetting(chain_settings[chain_id@]))
        } else {
            Err(ContractError::NotFound)
        },
    }
}

/// Answers the question `msg`.
pub fn query(state: &State, chain_settings: &ChainRegistry, msg: QueryMsg) -> (r: Result<
    QueryResponse,
    ContractError,
>)
    ensures
        query_outcome(state@, chain_settings@, msg) == match r {
            Ok(response) => Ok::<QueryResponseView, ContractError>(response@),
            Err(e) => Err(e),
        },
{
    match msg {
        QueryMsg::GetState {  } => Ok(QueryResponse::State(state.clone())),
        QueryMsg::GetChainSetting { chain_id } => {
            let setting = chain_settings.get(&chain_id)?;
            Ok(QueryResponse::ChainSetting(setting))
        },
    }
}

/// Whoever is not an owner is refused, whatever the command.
pub proof fn lemma_stranger_is_refused(
    state: StateView,
    chain_settings: Map<Seq<char>, ChainSettingView>,
    sender: Seq<char>,
    msg: ExecuteMsg,
)
    requires
        !state.owners.contains(sender),
    ensures
        execute_outcome(state, chain_settings, sender, msg) == Err::<Outcome, ContractError>(
            ContractError::Unauthorized,
        ),
{
}

/// A command that calls the remote contract on a chain that is not
/// registered fails with `NotFound`.
pub proof fn lemma_unregistered_chain_is_not_found(
    state: StateView,
    chain_settings: Map<Seq<char>, ChainSettingView>,
    sender: Seq<char>,
    msg: ExecuteMsg,
)
    requires
        state.owners.contains(sender),
        remote_chain(msg) matches Some(chain_id) && !chain_settings.contains_key(chain_id),
    ensures
        execute_outcome(state, chain_settings, sender, msg) == Err::<Outcome, ContractError>(
            ContractError::NotFound,
        ),
{
}

/// A command that calls the remote contract, or that is relayed to a
/// contract on the same ledger, leaves the state and the chain settings as
/// they were.
pub proof fn lemma_calls_change_nothing(
    state: StateView,
    chain_settings: Map<Seq<char>, ChainSettingView>,
    sender: Seq<char>,
    msg: ExecuteMsg,
)
    requires
        !(msg is SetChainSetting || msg is UpdateConfig || msg is AddOwner || msg is RemoveOwner),
    ensures
        execute_outcome(state, chain_settings, sender, msg) matches Ok(outcome) ==> outcome.state
            == state && outcome.chain_settings == chain_settings && outcome.response.messages.len()
            == 1,
{
}

/// A `SendToken` of an owner for a registered chain succeeds whenever both
/// addresses can be read. Its one message carries, under the main job of
/// the chain, the selector of `send_token` followed by the encoding of the
/// two addresses, the amount and the nonce.
pub proof fn lemma_send_token_succeeds(
    state: StateView,
    chain_settings: Map<Seq<char>, ChainSettingView>,
    sender: Seq<char>,
    chain_id: String,
    token: String,
    to: String,
    amount: u128,
    nonce: u128,
)
    requires
        state.owners.contains(sender),
        chain_settings.contains_key(chain_id@),
    ensures
        parsed_address(token@) is Some && parsed_address(to@) is Some ==> execute_outcome(
            state,
            chain_settings,
            sender,
            ExecuteMsg::SendToken { chain_id, token, to, amount, nonce },
        ) == Ok::<Outcome, ContractError>(
            Outcome {
                state,
                chain_settings,
                response: ResponseView {
                    messages: seq![
                        scheduled(
                            chain_settings[chain_id@].main_job_id,
                            selector(
                                "send_token"@,
                                RemoteFunction::SendToken.spec_parameters(),
                            ) + abi_encoding(
                                seq![
                                    TokenView::Address(parsed_address(token@)->0),
                                    TokenView::Address(parsed_address(to@)->0),
                                    TokenView::Uint(amount as nat),
                                    TokenView::Uint(nonce as nat),
                                ],
                            ),
                        ),
                    ],
                    attributes: action("send_token"@),
                },
            },
        ),
{
    let tokens = seq![
        TokenView::Address(parsed_address(token@)->0),
        TokenView::Address(parsed_address(to@)->0),
        TokenView::Uint(amount as nat),
        TokenView::Uint(nonce as nat),
    ];
    assert(amount < pow2(256) && nonce < pow2(256)) by {
        vstd::arithmetic::power2::lemma2_to64();
        vstd::arithmetic::power2::lemma_pow2_adds(64, 64);
        lemma_pow2_strictly_increases(128, 256);
    }
    lemma_validation_without_text(RemoteFunction::SendToken.spec_signature(), tokens);
}

/// A `DeployPalomaErc20` of an owner for a registered chain succeeds
/// whenever the blueprint's address can be read and none of the three texts
/// is longer than `2^24` bytes: the number of decimals always fits its
/// eight bits.
pub proof fn lemma_deploy_succeeds(
    state: StateView,
    chain_settings: Map<Seq<char>, ChainSettingView>,
    sender: Seq<char>,
    chain_id: String,
    paloma_denom: String,
    name: String,
    symbol: String,
    decimals: u8,
    blueprint: String,
)
    requires
        state.owners.contains(sender),
        chain_settings.contains_key(chain_id@),
        encode_utf8(paloma_denom@).len() <= 0x100_0000,
        encode_utf8(name@).len() <= 0x100_0000,
        encode_utf8(symbol@).len() <= 0x100_0000,
    ensures
        parsed_address(blueprint@) is Some ==> (execute_outcome(
            state,
            chain_settings,
            sender,
            ExecuteMsg::DeployPalomaErc20 {
                chain_id,
                paloma_denom,
                name,
                symbol,
                decimals,
                blueprint,
            },
        ) matches Ok(outcome) && outcome.state == state && outcome.chain_settings
            == chain_settings && outcome.response.messages == seq![
            scheduled(
                chain_settings[chain_id@].compass_job_id,
                selector("deploy_erc20"@, RemoteFunction::DeployErc20.spec_parameters())
                    + abi_encoding(
                    seq![
                        TokenView::String(paloma_denom@),
                        TokenView::String(name@),
                        TokenView::String(symbol@),
                        TokenView::Uint(decimals as nat),
                        TokenView::Address(parsed_address(blueprint@)->0),
                    ],
                ),
            ),
        ]),
{
    if parsed_address(blueprint@) is Some {
        let tokens = seq![
            TokenView::String(paloma_denom@),
            TokenView::String(name@),
            TokenView::String(symbol@),
            TokenView::Uint(decimals as nat),
            TokenView::Address(parsed_address(blueprint@)->0),
        ];
        let signature = RemoteFunction::DeployErc20.spec_signature();
        assert(decimals < pow2(8)) by {
            vstd::arithmetic::power2::lemma2_to64();
        }
        lemma_first_fault(signature.parameters, tokens, 0);
        let four = tokens.drop_last();
        let three = four.drop_last();
        let two = three.drop_last();
        let one = two.drop_last();
        assert(encoded_len(one.drop_last()) == 0);
        assert(one.last() == tokens[0] && two.last() == tokens[1] && three.last() == tokens[2]);
        assert(four.last() == tokens[3] && tokens.last() == tokens[4]);
        assert(encoded_len(one) == token_len(tokens[0]));
        assert(encoded_len(two) == encoded_len(one) + token_len(tokens[1]));
        assert(encoded_len(three) == encoded_len(two) + token_len(tokens[2]));
        assert(encoded_len(four) == encoded_len(three) + 32);
        assert(encoded_len(tokens) == encoded_len(four) + 32);
        assert(token_len(tokens[0]) <= 0x100_0060);
        assert(token_len(tokens[1]) <= 0x100_0060);
        assert(token_len(tokens[2]) <= 0x100_0060);
        assert(call_encoding(signature, tokens) is Ok);
    }
}

/// A command of an owner that tells the remote contract of a registered
/// chain one address succeeds whenever the address can be read.
pub proof fn lemma_address_update_succeeds(
    state: StateView,
    chain_settings: Map<Seq<char>, ChainSettingView>,
    sender: Seq<char>,
    msg: ExecuteMsg,
)
    requires
        state.owners.contains(sender),
        remote_chain(msg) matches Some(chain_id) && chain_settings.contains_key(chain_id),
    ensures
        match msg {
            ExecuteMsg::UpdateCompass { new_compass, .. } => parsed_address(new_compass@) is Some,
            ExecuteMsg::UpdateRefundWallet { new_refund_wallet, .. } => parsed_address(
                new_refund_wallet@,
            ) is Some,
            ExecuteMsg::UpdateServiceFeeCollector { new_service_fee_collector, .. } => parsed_address(
                new_service_fee_collector@,
            ) is Some,
            _ => false,
        } ==> execute_outcome(state, chain_settings, sender, msg) is Ok,
{
    match msg {
        ExecuteMsg::UpdateCompass { new_compass, .. } => {
            lemma_validation_without_text(
                RemoteFunction::UpdateCompass.spec_signature(),
                seq![TokenView::Address(parsed_address(new_compass@)->0)],
            );
        },
        ExecuteMsg::UpdateRefundWallet { new_refund_wallet, .. } => {
            lemma_validation_without_text(
                RemoteFunction::UpdateRefundWallet.spec_signature(),
                seq![TokenView::Address(parsed_address(new_refund_wallet@)->0)],
            );
        },
        ExecuteMsg::UpdateServiceFeeCollector { new_service_fee_collector, .. } => {
            lemma_validation_without_text(
                RemoteFunction::UpdateServiceFeeCollector.spec_signature(),
                seq![TokenView::Address(parsed_address(new_service_fee_collector@)->0)],
            );
        },
        _ => {},
    }
}

/// A command of an owner that tells the remote contract of a registered
/// chain one number, or that calls `set_paloma`, succeeds.
pub proof fn lemma_number_update_succeeds(
    state: StateView,
    chain_settings: Map<Seq<char>, ChainSettingView>,
    sender: Seq<char>,
    msg: ExecuteMsg,
)
    requires
        state.owners.contains(sender),
        remote_chain(msg) matches Some(chain_id) && chain_settings.contains_key(chain_id),
        msg is UpdateGasFee || msg is UpdateServiceFee || msg is SetPaloma,
    ensures
        execute_outcome(state, chain_settings, sender, msg) is Ok,
{
    match msg {
        ExecuteMsg::UpdateGasFee { new_gas_fee, .. } => {
            lemma_uint256_bound(new_gas_fee);
            lemma_validation_without_text(
                RemoteFunction::UpdateGasFee.spec_signature(),
                seq![TokenView::Uint(new_gas_fee@)],
            );
        },
        ExecuteMsg::UpdateServiceFee { new_service_fee, .. } => {
            lemma_uint256_bound(new_service_fee);
            lemma_validation_without_text(
                RemoteFunction::UpdateServiceFee.spec_signature(),
                seq![TokenView::Uint(new_service_fee@)],
            );
        },
        ExecuteMsg::SetPaloma { .. } => {
            lemma_validation_without_text(RemoteFunction::SetPaloma.spec_signature(), seq![]);
        },
        _ => {},
    }
}

/// A command that only changes the state hands back no message.
pub proof fn lemma_changes_send_nothing(
    state: StateView,
    chain_settings: Map<Seq<char>, ChainSettingView>,
    sender: Seq<char>,
    msg: ExecuteMsg,
)
    requires
        msg is SetChainSetting || msg is UpdateConfig || msg is AddOwner || msg is RemoveOwner,
    ensures
        execute_outcome(state, chain_settings, sender, msg) matches Ok(outcome)
            ==> outcome.response.messages.len() == 0,
{
}

/// After a chain has been registered, the question for its setting is
/// answered with the two jobs that were given.
pub proof fn lemma_setting_is_read_back(
    state: StateView,
    chain_settings: Map<Seq<char>, ChainSettingView>,
    sender: Seq<char>,
    chain_id: String,
    compass_job_id: String,
    main_job_id: String,
)
    requires
        state.owners.contains(sender),
    ensures
        execute_outcome(
            state,
            chain_settings,
            sender,
            ExecuteMsg::SetChainSetting { chain_id, compass_job_id, main_job_id },
        ) matches Ok(outcome) && query_outcome(
            outcome.state,
            outcome.chain_settings,
            QueryMsg::GetChainSetting { chain_id },
        ) == Ok::<QueryResponseView, ContractError>(
            QueryResponseView::ChainSetting(
                ChainSettingView { compass_job_id: compass_job_id@, main_job_id: main_job_id@ },
            ),
        ),
{
}

/// Adding owners a second time changes nothing: neither who is an owner
/// nor how many there are.
pub proof fn lemma_adding_owners_again_changes_nothing(
    state: StateView,
    chain_settings: Map<Seq<char>, ChainSettingView>,
    sender: Seq<char>,
    owners: Vec<Addr>,
)
    requires
        state.owners.contains(sender),
    ensures
        execute_outcome(state, chain_settings, sender, ExecuteMsg::AddOwner { owners }) matches Ok(
            once,
        ) && execute_outcome(
            once.state,
            once.chain_settings,
            sender,
            ExecuteMsg::AddOwner { owners },
        ) matches Ok(twice) && twice.state == once.state && twice.chain_settings
            == once.chain_settings,
{
    let added = owners.deep_view();
    lemma_with_owners_grows(state.owners, added);
    lemma_with_owners_of_members(with_owners(state.owners, added), added);
}

/// Adding principals that are owners already changes nothing.
pub proof fn lemma_adding_present_owners_changes_nothing(
    state: StateView,
    chain_settings: Map<Seq<char>, ChainSettingView>,
    sender: Seq<char>,
    owners: Vec<Addr>,
)
    requires
        state.owners.contains(sender),
        forall|i: int| 0 <= i < owners.len() ==> state.owners.contains(#[trigger] owners[i]@),
    ensures
        execute_outcome(state, chain_settings, sender, ExecuteMsg::AddOwner { owners }) matches Ok(
            outcome,
        ) && outcome.state == state && outcome.chain_settings == chain_settings,
{
    lemma_with_owners_of_members(state.owners, owners.deep_view());
}

/// After owners have been added, each of them is an owner, whoever was an
/// owner still is, and no owner occurs twice.
pub proof fn lemma_added_owners_are_owners(
    state: StateView,
    chain_settings: Map<Seq<char>, ChainSettingView>,
    sender: Seq<char>,
    owners: Vec<Addr>,
)
    requires
        state.owners.no_duplicates(),
        state.owners.contains(sender),
    ensures
        execute_outcome(state, chain_settings, sender, ExecuteMsg::AddOwner { owners }) matches Ok(
            outcome,
        ) && outcome.state.owners.no_duplicates() && (forall|i: int|
            0 <= i < owners.len() ==> outcome.state.owners.contains(#[trigger] owners[i]@))
            && (forall|owner: Seq<char>|
            state.owners.contains(owner) ==> #[trigger] outcome.state.owners.contains(owner)),
{
    let added = owners.deep_view();
    lemma_with_owners_grows(state.owners, added);
    lemma_with_owners_no_duplicates(state.owners, added);
    assert forall|i: int| 0 <= i < owners.len() implies with_owners(state.owners, added).contains(
        #[trigger] owners[i]@,
    ) by {
        assert(added[i] == owners[i]@);
    }
}

/// After an owner has been removed, it is no owner, every other owner still
/// is, and there is one owner less.
pub proof fn lemma_removed_owner_is_gone(
    state: StateView,
    chain_settings: Map<Seq<char>, ChainSettingView>,
    sender: Seq<char>,
    owner: Addr,
)
    requires
        state.owners.no_duplicates(),
        state.owners.contains(sender),
        state.owners.contains(owner@),
    ensures
        execute_outcome(state, chain_settings, sender, ExecuteMsg::RemoveOwner { owner }) matches Ok(
            outcome,
        ) && !outcome.state.owners.contains(owner@) && outcome.state.owners.no_duplicates()
            && outcome.state.owners.len() == state.owners.len() - 1 && (forall|other: Seq<char>|
            other != owner@ ==> (#[trigger] outcome.state.owners.contains(other)
                <==> state.owners.contains(other))),
{
    lemma_without_owner(state.owners, owner@);
}

/// Removing a principal that is not an owner fails with `NotFound`.
pub proof fn lemma_removing_a_stranger_is_not_found(
    state: StateView,
    chain_settings: Map<Seq<char>, ChainSettingView>,
    sender: Seq<char>,
    owner: Addr,
)
    requires
        state.owners.contains(sender),
        !state.owners.contains(owner@),
    ensures
        execute_outcome(state, chain_settings, sender, ExecuteMsg::RemoveOwner { owner }) == Err::<
            Outcome,
            ContractError,
        >(ContractError::NotFound),
{
}

} // verus!
