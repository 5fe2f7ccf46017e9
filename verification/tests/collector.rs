use token_purchaser::addr::Addr;
use token_purchaser::collector::contract::{execute, instantiate, query};
use token_purchaser::collector::msg::{
    AssetInfo, CancelTx, ExecuteMsg, ExternalExecuteMsg, InstantiateMsg, PalomaMsg, QueryMsg,
    SendTx, SwapOperation,
};
use token_purchaser::collector::state::State;
use token_purchaser::cosmos::{Attribute, Coin, CosmosMsg, Response, WasmMsg};
use token_purchaser::error::ContractError;

fn addr(text: &str) -> Addr {
    Addr::unchecked(text.to_string())
}

fn text(s: &str) -> String {
    s.to_string()
}

fn attribute(key: &str, value: &str) -> Attribute {
    Attribute { key: key.to_string(), value: value.to_string() }
}

fn setup() -> State {
    let (state, _) = instantiate(InstantiateMsg { owners: vec![addr("paloma1alice")] });
    state
}

fn swap_operations() -> Vec<SwapOperation> {
    vec![SwapOperation::AstroSwap {
        offer_asset_info: AssetInfo::Token { contract_addr: addr("paloma1token") },
        ask_asset_info: AssetInfo::NativeToken { denom: text("ugrain") },
    }]
}

fn every_collector_command() -> Vec<ExecuteMsg> {
    vec![
        ExecuteMsg::Exchange {
            dex_router: addr("paloma1router"),
            operations: swap_operations(),
            minimum_receive: None,
            to: None,
            max_spread: None,
            funds: vec![],
        },
        ExecuteMsg::SendToEvm {
            recipient: text("0x2222222222222222222222222222222222222222"),
            amount: text("1000ugrain"),
            chain_reference_id: text("eth-main"),
        },
        ExecuteMsg::CancelTx { transaction_id: 8 },
        ExecuteMsg::WithdrawPusd {
            pusd_manager: addr("paloma1pusd"),
            chain_id: text("eth-main"),
            recipient: text("0x2222222222222222222222222222222222222222"),
            amount: 5,
        },
        ExecuteMsg::ReWithdrawPusd { pusd_manager: addr("paloma1pusd"), nonce: 1 },
        ExecuteMsg::CancelWithdrawPusd { pusd_manager: addr("paloma1pusd"), nonce: 1 },
        ExecuteMsg::AddOwner { owners: vec![addr("paloma1mallory")] },
        ExecuteMsg::RemoveOwner { owner: addr("paloma1alice") },
    ]
}

#[test]
fn collector_instantiate_takes_each_owner_once() {
    let (state, response) =
        instantiate(InstantiateMsg { owners: vec![addr("a"), addr("a"), addr("b")] });
    assert_eq!(state.owners.to_vec(), vec![addr("a"), addr("b")]);
    assert_eq!(response.messages.len(), 0);
    assert_eq!(response.attributes, vec![attribute("action", "instantiate")]);
}

#[test]
fn collector_refuses_strangers() {
    for msg in every_collector_command() {
        let mut state = setup();
        let before = state.clone();
        let result = execute(&mut state, &addr("paloma1mallory"), msg);
        assert_eq!(result, Err(ContractError::Unauthorized));
        assert_eq!(state, before);
    }
}

#[test]
fn collector_serves_owners() {
    for msg in every_collector_command() {
        let mut state = setup();
        assert!(execute(&mut state, &addr("paloma1alice"), msg).is_ok());
    }
}

#[test]
fn send_to_evm_is_handed_to_the_bridge() {
    let mut state = setup();
    let before = state.clone();
    let msg = ExecuteMsg::SendToEvm {
        recipient: text("0x2222222222222222222222222222222222222222"),
        amount: text("1000ugrain"),
        chain_reference_id: text("eth-main"),
    };
    let response = execute(&mut state, &addr("paloma1alice"), msg).unwrap();
    let expected = Response {
        messages: vec![CosmosMsg::Custom(PalomaMsg::SkywayMsg {
            send_tx: Some(SendTx {
                remote_chain_destination_address: text("0x2222222222222222222222222222222222222222"),
                amount: text("1000ugrain"),
                chain_reference_id: text("eth-main"),
            }),
            cancel_tx: None,
        })],
        attributes: vec![attribute("action", "send_to_evm")],
    };
    assert_eq!(response, expected);
    assert_eq!(state, before);
}

#[test]
fn cancel_tx_is_handed_to_the_bridge() {
    let mut state = setup();
    let msg = ExecuteMsg::CancelTx { transaction_id: 8 };
    let response = execute(&mut state, &addr("paloma1alice"), msg).unwrap();
    let expected = Response {
        messages: vec![CosmosMsg::Custom(PalomaMsg::SkywayMsg {
            send_tx: None,
            cancel_tx: Some(CancelTx { transaction_id: 8 }),
        })],
        attributes: vec![attribute("action", "cancel_tx")],
    };
    assert_eq!(response, expected);
}

#[test]
fn collector_relays_the_exchange() {
    let mut state = setup();
    let msg = ExecuteMsg::Exchange {
        dex_router: addr("paloma1router"),
        operations: swap_operations(),
        minimum_receive: None,
        to: None,
        max_spread: None,
        funds: vec![Coin { denom: text("ugrain"), amount: 1 }],
    };
    let response = execute(&mut state, &addr("paloma1alice"), msg).unwrap();
    let expected = Response {
        messages: vec![CosmosMsg::Wasm(WasmMsg::Execute {
            contract_addr: text("paloma1router"),
            msg: ExternalExecuteMsg::ExecuteSwapOperations {
                operations: swap_operations(),
                minimum_receive: None,
                to: None,
                max_spread: None,
            },
            funds: vec![Coin { denom: text("ugrain"), amount: 1 }],
        })],
        attributes: vec![attribute("action", "exchange")],
    };
    assert_eq!(response, expected);
}

#[test]
fn collector_relays_withdrawals() {
    let mut state = setup();
    let msg = ExecuteMsg::WithdrawPusd {
        pusd_manager: addr("paloma1pusd"),
        chain_id: text("eth-main"),
        recipient: text("0x22"),
        amount: 5,
    };
    let response = execute(&mut state, &addr("paloma1alice"), msg).unwrap();
    let expected = Response {
        messages: vec![CosmosMsg::Wasm(WasmMsg::Execute {
            contract_addr: text("paloma1pusd"),
            msg: ExternalExecuteMsg::Withdraw { chain_id: text("eth-main"), recipient: text("0x22") },
            funds: vec![Coin { denom: text("factory/paloma1pusd/upusd"), amount: 5 }],
        })],
        attributes: vec![attribute("action", "withdraw_pusd")],
    };
    assert_eq!(response, expected);
    let msg = ExecuteMsg::ReWithdrawPusd { pusd_manager: addr("paloma1pusd"), nonce: 1 };
    let response = execute(&mut state, &addr("paloma1alice"), msg).unwrap();
    let expected = Response {
        messages: vec![CosmosMsg::Wasm(WasmMsg::Execute {
            contract_addr: text("paloma1pusd"),
            msg: ExternalExecuteMsg::ReWithdraw { nonce: 1 },
            funds: vec![],
        })],
        attributes: vec![attribute("action", "re_withdraw_pusd")],
    };
    assert_eq!(response, expected);
    let msg = ExecuteMsg::CancelWithdrawPusd { pusd_manager: addr("paloma1pusd"), nonce: 2 };
    let response = execute(&mut state, &addr("paloma1alice"), msg).unwrap();
    let expected = Response {
        messages: vec![CosmosMsg::Wasm(WasmMsg::Execute {
            contract_addr: text("paloma1pusd"),
            msg: ExternalExecuteMsg::CancelWithdraw { nonce: 2 },
            funds: vec![],
        })],
        attributes: vec![attribute("action", "cancel_withdraw_pusd")],
    };
    assert_eq!(response, expected);
}

#[test]
fn collector_owners_are_added_and_removed() {
    let mut state = setup();
    let msg = ExecuteMsg::AddOwner { owners: vec![addr("paloma1bob"), addr("paloma1alice")] };
    let response = execute(&mut state, &addr("paloma1alice"), msg).unwrap();
    assert_eq!(response, Response { messages: vec![], attributes: vec![attribute("action", "update_config")] });
    assert_eq!(state.owners.to_vec(), vec![addr("paloma1alice"), addr("paloma1bob")]);
    let once = state.clone();
    let msg = ExecuteMsg::AddOwner { owners: vec![addr("paloma1bob"), addr("paloma1alice")] };
    execute(&mut state, &addr("paloma1bob"), msg).unwrap();
    assert_eq!(state, once);
    let msg = ExecuteMsg::RemoveOwner { owner: addr("paloma1carol") };
    assert_eq!(execute(&mut state, &addr("paloma1bob"), msg), Err(ContractError::NotFound));
    assert_eq!(state, once);
    let msg = ExecuteMsg::RemoveOwner { owner: addr("paloma1alice") };
    execute(&mut state, &addr("paloma1bob"), msg).unwrap();
    assert_eq!(state.owners.to_vec(), vec![addr("paloma1bob")]);
}

#[test]
fn collector_query_gives_the_state() {
    let state = setup();
    assert_eq!(query(&state, QueryMsg::GetState {}), state);
}
