//! The command dispatcher of the collector contract.
//!
//! A command is first authorised against the owners. It is then relayed to
//! a contract on the same ledger, handed to the bridge, or applied to the
//! owners. A command that fails changes nothing.

use crate::addr::Addr;
use crate::collector::msg::{
    CancelTx, ExecuteMsg, InstantiateMsg, PalomaMsg, PalomaMsgView, QueryMsg, SendTx, SendTxView,
};
use crate::collector::state::{State, StateView};
use crate::cosmos::{handed, noted, relayed, CosmosMsg, Response, ResponseView};
use crate::error::ContractError;
use crate::external::opt_text;
use crate::owners::{
    lemma_with_owners_grows, lemma_with_owners_of_members, with_owners, without_owner,
};
use crate::relay::{
    cancel_withdraw, re_withdraw, spec_cancel_withdraw, spec_re_withdraw, spec_swap,
    spec_withdraw, swap, withdraw,
};
use vstd::prelude::*;

verus! {

/// The answer to a command of an owner, or the error that rejects it.
pub open spec fn response_to(state: StateView, msg: ExecuteMsg) -> Result<
    ResponseView<PalomaMsgView>,
    ContractError,
> {
    match msg {
        ExecuteMsg::Exchange {
            dex_router,
            operations,
            minimum_receive,
            to,
            max_spread,
            funds,
        } => Ok(
            relayed(
                spec_swap(
                    dex_router@,
                    operations.deep_view(),
                    minimum_receive,
                    opt_text(to),
                    max_spread,
                    funds.deep_view(),
                ),
                "exchange"@,
            ),
        ),
        ExecuteMsg::SendToEvm { recipient, amount, chain_reference_id } => Ok(
            handed(
                PalomaMsgView::SkywayMsg {
                    send_tx: Some(
                        SendTxView {
                            remote_chain_destination_address: recipient@,
                            amount: amount@,
                            chain_reference_id: chain_reference_id@,
                        },
                    ),
                    cancel_tx: None,
                },
                "send_to_evm"@,
            ),
        ),
        ExecuteMsg::CancelTx { transaction_id } => Ok(
            handed(
                PalomaMsgView::SkywayMsg {
                    send_tx: None,
                    cancel_tx: Some(CancelTx { transaction_id }),
                },
                "cancel_tx"@,
            ),
        ),
        ExecuteMsg::WithdrawPusd { pusd_manager, chain_id, recipient, amount } => Ok(
            relayed(spec_withdraw(pusd_manager@, chain_id@, recipient@, amount), "withdraw_pusd"@),
        ),
        ExecuteMsg::ReWithdrawPusd { pusd_manager, nonce } => Ok(
            relayed(spec_re_withdraw(pusd_manager@, nonce), "re_withdraw_pusd"@),
        ),
        ExecuteMsg::CancelWithdrawPusd { pusd_manager, nonce } => Ok(
            relayed(spec_cancel_withdraw(pusd_manager@, nonce), "cancel_withdraw_pusd"@),
        ),
        ExecuteMsg::AddOwner { .. } => Ok(noted("update_config"@)),
        ExecuteMsg::RemoveOwner { owner } => if state.owners.contains(owner@) {
            Ok(noted("update_config"@))
        } else {
            Err(ContractError::NotFound)
        },
    }
}

/// The owners after a command that succeeded.
pub open spec fn state_after(state: StateView, msg: ExecuteMsg) -> StateView {
    match msg {
        ExecuteMsg::AddOwner { owners } => StateView {
            owners: with_owners(state.owners, owners.deep_view()),
        },
        ExecuteMsg::RemoveOwner { owner } => StateView {
            owners: without_owner(state.owners, owner@),
        },
        _ => state,
    }
}

/// What a command that succeeded leaves behind and hands back.
pub struct Outcome {
    pub state: StateView,
    pub response: ResponseView<PalomaMsgView>,
}

/// The outcome of the command `msg` of `sender`: `Unauthorized` unless
/// `sender` is an owner; else the error that rejects the command, or the
/// new state with the answer.
pub open spec fn execute_outcome(state: StateView, sender: Seq<char>, msg: ExecuteMsg) -> Result<
    Outcome,
    ContractError,
> {
    if !state.owners.contains(sender) {
        Err(ContractError::Unauthorized)
    } else {
        match response_to(state, msg) {
            Err(e) => Err(e),
            Ok(response) => Ok(Outcome { state: state_after(state, msg), response }),
        }
    }
}

/// Sets the contract up with the owners of `msg`.
pub fn instantiate(msg: InstantiateMsg) -> (r: (State, Response<PalomaMsg>))
    ensures
        r.0@ == (StateView { owners: with_owners(Seq::empty(), msg.owners.deep_view()) }),
        r.0@.owners.no_duplicates(),
        r.1@ == noted::<PalomaMsgView>("instantiate"@),
{
    let state = State::new(&msg.owners);
    (state, Response::new().add_attribute("action", "instantiate"))
}

/// Carries out the command `msg` of `sender`.
pub fn execute(state: &mut State, sender: &Addr, msg: ExecuteMsg) -> (r: Result<
    Response<PalomaMsg>,
    ContractError,
>)
    ensures
        match r {
            Ok(response) => execute_outcome(old(state)@, sender@, msg) == Ok::<
                Outcome,
                ContractError,
            >(Outcome { state: final(state)@, response: response@ }),
            Err(e) => execute_outcome(old(state)@, sender@, msg) == Err::<Outcome, ContractError>(
                e,
            ) && final(state)@ == old(state)@,
        },
{
    state.owners.authorize(sender)?;
    match msg {
        ExecuteMsg::Exchange { dex_router, operations, minimum_receive, to, max_spread, funds } => {
            let call = swap(&dex_router, operations, minimum_receive, to, max_spread, funds);
            Ok(Response::new().add_message(CosmosMsg::Wasm(call)).add_attribute("action", "exchange"))
        },
        ExecuteMsg::SendToEvm { recipient, amount, chain_reference_id } => {
            let transfer = SendTx {
                remote_chain_destination_address: recipient,
                amount,
                chain_reference_id,
            };
            let msg = PalomaMsg::SkywayMsg { send_tx: Some(transfer), cancel_tx: None };
            Ok(Response::new().add_message(CosmosMsg::Custom(msg)).add_attribute("action", "send_to_evm"))
        },
        ExecuteMsg::CancelTx { transaction_id } => {
            let msg = PalomaMsg::SkywayMsg {
                send_tx: None,
                cancel_tx: Some(CancelTx { transaction_id }),
            };
            Ok(Response::new().add_message(CosmosMsg::Custom(msg)).add_attribute("action", "cancel_tx"))
        },
        ExecuteMsg::WithdrawPusd { pusd_manager, chain_id, recipient, amount } => {
            let call = withdraw(&pusd_manager, chain_id, recipient, amount);
            Ok(
                Response::new().add_message(CosmosMsg::Wasm(call)).add_attribute(
                    "action",
                    "withdraw_pusd",
                ),
            )
        },
        ExecuteMsg::ReWithdrawPusd { pusd_manager, nonce } => {
            let call = re_withdraw(&pusd_manager, nonce);
            Ok(
                Response::new().add_message(CosmosMsg::Wasm(call)).add_attribute(
                    "action",
                    "re_withdraw_pusd",
                ),
            )
        },
        ExecuteMsg::CancelWithdrawPusd { pusd_manager, nonce } => {
            let call = cancel_withdraw(&pusd_manager, nonce);
            Ok(
                Response::new().add_message(CosmosMsg::Wasm(call)).add_attribute(
                    "action",
                    "cancel_withdraw_pusd",
                ),
            )
        },
        ExecuteMsg::AddOwner { owners } => {
            state.owners.add_all(&owners);
            Ok(Response::new().add_attribute("action", "update_config"))
        },
        ExecuteMsg::RemoveOwner { owner } => {
            state.owners.remove(&owner)?;
            Ok(Response::new().add_attribute("action", "update_config"))
        },
    }
}

/// Answers the question `msg`: the state as it is.
pub fn query(state: &State, msg: QueryMsg) -> (answer: State)
    ensures
        answer@ == state@,
{
    match msg {
        QueryMsg::GetState {  } => state.clone(),
    }
}

/// Whoever is not an owner is refused, whatever the command.
pub proof fn lemma_stranger_is_refused(state: StateView, sender: Seq<char>, msg: ExecuteMsg)
    requires
        !state.owners.contains(sender),
    ensures
        execute_outcome(state, sender, msg) == Err::<Outcome, ContractError>(
            ContractError::Unauthorized,
        ),
{
}

/// A command that is relayed or handed to the bridge leaves the owners as
/// they were and answers with one message.
pub proof fn lemma_calls_change_nothing(state: StateView, sender: Seq<char>, msg: ExecuteMsg)
    requires
        !(msg is AddOwner || msg is RemoveOwner),
    ensures
        execute_outcome(state, sender, msg) matches Ok(outcome) ==> outcome.state == state
            && outcome.response.messages.len() == 1,
{
}

/// A command that only changes the owners hands back no message.
pub proof fn lemma_changes_send_nothing(state: StateView, sender: Seq<char>, msg: ExecuteMsg)
    requires
        msg is AddOwner || msg is RemoveOwner,
    ensures
        execute_outcome(state, sender, msg) matches Ok(outcome)
            ==> outcome.response.messages.len() == 0,
{
}

/// Adding owners a second time changes nothing: neither who is an owner
/// nor how many there are.
pub proof fn lemma_adding_owners_again_changes_nothing(
    state: StateView,
    sender: Seq<char>,
    owners: Vec<Addr>,
)
    requires
        state.owners.contains(sender),
    ensures
        execute_outcome(state, sender, ExecuteMsg::AddOwner { owners }) matches Ok(once)
            && execute_outcome(once.state, sender, ExecuteMsg::AddOwner { owners }) matches Ok(
            twice,
        ) && twice.state == once.state,
{
    let added = owners.deep_view();
    lemma_with_owners_grows(state.owners, added);
    lemma_with_owners_of_members(with_owners(state.owners, added), added);
}

/// Removing a principal that is not an owner fails with `NotFound`.
pub proof fn lemma_removing_a_stranger_is_not_found(
    state: StateView,
    sender: Seq<char>,
    owner: Addr,
)
    requires
        state.owners.contains(sender),
        !state.owners.contains(owner@),
    ensures
        execute_outcome(state, sender, ExecuteMsg::RemoveOwner { owner }) == Err::<
            Outcome,
            ContractError,
        >(ContractError::NotFound),
{
}

} // verus!
