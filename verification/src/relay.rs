//! The calls of contracts on the same ledger that commands are relayed as.

use crate::addr::Addr;
use crate::cosmos::{Coin, CoinView, WasmMsg, WasmMsgView};
use crate::external::{
    opt_text, Decimal, ExternalExecuteMsg, ExternalExecuteMsgView, SwapOperation,
    SwapOperationView,
};
use vstd::prelude::*;
use vstd::string::*;

verus! {

/// The denomination of the funds that the withdrawal manager
/// `pusd_manager` issues.
pub open spec fn spec_pusd_denom(pusd_manager: Seq<char>) -> Seq<char> {
    "factory/"@ + pusd_manager + "/upusd"@
}

/// The call that asks the router `dex_router` to run `operations` on
/// `funds`.
pub open spec fn spec_swap(
    dex_router: Seq<char>,
    operations: Seq<SwapOperationView>,
    minimum_receive: Option<u128>,
    to: Option<Seq<char>>,
    max_spread: Option<Decimal>,
    funds: Seq<CoinView>,
) -> WasmMsgView {
    WasmMsgView::Execute {
        contract_addr: dex_router,
        msg: ExternalExecuteMsgView::ExecuteSwapOperations {
            operations,
            minimum_receive,
            to,
            max_spread,
        },
        funds,
    }
}

/// The call that asks `pusd_manager` to send `amount` of its funds to
/// `recipient` on the chain `chain_id`.
pub open spec fn spec_withdraw(
    pusd_manager: Seq<char>,
    chain_id: Seq<char>,
    recipient: Seq<char>,
    amount: u128,
) -> WasmMsgView {
    WasmMsgView::Execute {
        contract_addr: pusd_manager,
        msg: ExternalExecuteMsgView::Withdraw { chain_id, recipient },
        funds: seq![CoinView { denom: spec_pusd_denom(pusd_manager), amount }],
    }
}

/// The call that asks `pusd_manager` to repeat the withdrawal `nonce`.
pub open spec fn spec_re_withdraw(pusd_manager: Seq<char>, nonce: u64) -> WasmMsgView {
    WasmMsgView::Execute {
        contract_addr: pusd_manager,
        msg: ExternalExecuteMsgView::ReWithdraw { nonce },
        funds: seq![],
    }
}

/// The call that asks `pusd_manager` to cancel the withdrawal `nonce`.
pub open spec fn spec_cancel_withdraw(pusd_manager: Seq<char>, nonce: u64) -> WasmMsgView {
    WasmMsgView::Execute {
        contract_addr: pusd_manager,
        msg: ExternalExecuteMsgView::CancelWithdraw { nonce },
        funds: seq![],
    }
}

/// The denomination of the funds that `pusd_manager` issues.
pub fn pusd_denom(pusd_manager: &Addr) -> (denom: String)
    ensures
        denom@ == spec_pusd_denom(pusd_manager@),
{
    String::from_str("factory/").concat(pusd_manager.as_str()).concat("/upusd")
}

/// The call that asks the router `dex_router` to run `operations` on
/// `funds`.
pub fn swap(
    dex_router: &Addr,
    operations: Vec<SwapOperation>,
    minimum_receive: Option<u128>,
    to: Option<String>,
    max_spread: Option<Decimal>,
    funds: Vec<Coin>,
) -> (msg: WasmMsg)
    ensures
        msg@ == spec_swap(
            dex_router@,
            operations.deep_view(),
            minimum_receive,
            opt_text(to),
            max_spread,
            funds.deep_view(),
        ),
{
    WasmMsg::Execute {
        contract_addr: String::from_str(dex_router.as_str()),
        msg: ExternalExecuteMsg::ExecuteSwapOperations {
            operations,
            minimum_receive,
            to,
            max_spread,
        },
        funds,
    }
}

/// The call that asks `pusd_manager` to send `amount` of its funds to
/// `recipient` on the chain `chain_id`.
pub fn withdraw(pusd_manager: &Addr, chain_id: String, recipient: String, amount: u128) -> (msg:
    WasmMsg)
    ensures
        msg@ == spec_withdraw(pusd_manager@, chain_id@, recipient@, amount),
{
    let funds = vec![Coin { denom: pusd_denom(pusd_manager), amount }];
    assert(funds.deep_view() =~= seq![
        CoinView { denom: spec_pusd_denom(pusd_manager@), amount },
    ]);
    WasmMsg::Execute {
        contract_addr: String::from_str(pusd_manager.as_str()),
        msg: ExternalExecuteMsg::Withdraw { chain_id, recipient },
        funds,
    }
}

/// The call that asks `pusd_manager` to repeat the withdrawal `nonce`.
pub fn re_withdraw(pusd_manager: &Addr, nonce: u64) -> (msg: WasmMsg)
    ensures
        msg@ == spec_re_withdraw(pusd_manager@, nonce),
{
    let funds: Vec<Coin> = Vec::new();
    assert(funds.deep_view() =~= seq![]);
    WasmMsg::Execute {
        contract_addr: String::from_str(pusd_manager.as_str()),
        msg: ExternalExecuteMsg::ReWithdraw { nonce },
        funds,
    }
}

/// The call that asks `pusd_manager` to cancel the withdrawal `nonce`.
pub fn cancel_withdraw(pusd_manager: &Addr, nonce: u64) -> (msg: WasmMsg)
    ensures
        msg@ == spec_cancel_withdraw(pusd_manager@, nonce),
{
    let funds: Vec<Coin> = Vec::new();
    assert(funds.deep_view() =~= seq![]);
    WasmMsg::Execute {
        contract_addr: String::from_str(pusd_manager.as_str()),
        msg: ExternalExecuteMsg::CancelWithdraw { nonce },
        funds,
    }
}

} // verus!
