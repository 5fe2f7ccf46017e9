//! The commands that this service relays to contracts on the same ledger:
//! swaps to an exchange router, and withdrawals to a withdrawal manager.

use crate::addr::Addr;
use vstd::prelude::*;

verus! {

/// The characters of an optional text.
pub open spec fn opt_text(text: Option<String>) -> Option<Seq<char>> {
    match text {
        Some(text) => Some(text@),
        None => None,
    }
}

/// A fixed-point number with 18 decimal places, held as its digits.
#[derive(Clone, Copy, Debug, PartialEq, Eq)]
pub struct Decimal {
    /// The number times `10^18`.
    pub atomics: u128,
}

/// An asset that an exchange trades.
#[derive(Debug, PartialEq, Eq)]
pub enum AssetInfo {
    /// A token that a contract issues.
    Token { contract_addr: Addr },
    /// A token that the ledger itself holds.
    NativeToken { denom: String },
}

/// What an `AssetInfo` stands for.
pub enum AssetInfoView {
    Token { contract_addr: Seq<char> },
    NativeToken { denom: Seq<char> },
}

impl View for AssetInfo {
    type V = AssetInfoView;

    open spec fn view(&self) -> AssetInfoView {
        match self {
            AssetInfo::Token { contract_addr } => AssetInfoView::Token {
                contract_addr: contract_addr@,
            },
            AssetInfo::NativeToken { denom } => AssetInfoView::NativeToken { denom: denom@ },
        }
    }
}

/// One step of a swap.
#[derive(Debug, PartialEq, Eq)]
pub enum SwapOperation {
    AstroSwap {
        /// The asset that is given.
        offer_asset_info: AssetInfo,
        /// The asset that is asked for.
        ask_asset_info: AssetInfo,
    },
}

/// What a `SwapOperation` stands for.
pub enum SwapOperationView {
    AstroSwap { offer_asset_info: AssetInfoView, ask_asset_info: AssetInfoView },
}

impl View for SwapOperation {
    type V = SwapOperationView;

    open spec fn view(&self) -> SwapOperationView {
        match self {
            SwapOperation::AstroSwap {
                offer_asset_info,
                ask_asset_info,
            } => SwapOperationView::AstroSwap {
                offer_asset_info: offer_asset_info@,
                ask_asset_info: ask_asset_info@,
            },
        }
    }
}

impl DeepView for SwapOperation {
    type V = SwapOperationView;

    open spec fn deep_view(&self) -> SwapOperationView {
        self@
    }
}

/// A command for a contract on the same ledger.
#[derive(Debug, PartialEq, Eq)]
pub enum ExternalExecuteMsg {
    /// Asks an exchange router to run the swaps in order.
    ExecuteSwapOperations {
        operations: Vec<SwapOperation>,
        minimum_receive: Option<u128>,
        to: Option<String>,
        max_spread: Option<Decimal>,
    },
    /// Asks the withdrawal manager to send the attached funds to `recipient`
    /// on the chain `chain_id`.
    Withdraw { chain_id: String, recipient: String },
    /// Asks the withdrawal manager to repeat the withdrawal `nonce`.
    ReWithdraw { nonce: u64 },
    /// Asks the withdrawal manager to cancel the withdrawal `nonce`.
    CancelWithdraw { nonce: u64 },
}

/// What an `ExternalExecuteMsg` stands for.
pub enum ExternalExecuteMsgView {
    ExecuteSwapOperations {
        operations: Seq<SwapOperationView>,
        minimum_receive: Option<u128>,
        to: Option<Seq<char>>,
        max_spread: Option<Decimal>,
    },
    Withdraw { chain_id: Seq<char>, recipient: Seq<char> },
    ReWithdraw { nonce: u64 },
    CancelWithdraw { nonce: u64 },
}

impl View for ExternalExecuteMsg {
    type V = ExternalExecuteMsgView;

    open spec fn view(&self) -> ExternalExecuteMsgView {
        match self {
            ExternalExecuteMsg::ExecuteSwapOperations {
                operations,
                minimum_receive,
                to,
                max_spread,
            } => ExternalExecuteMsgView::ExecuteSwapOperations {
                operations: operations.deep_view(),
                minimum_receive: *minimum_receive,
                to: opt_text(*to),
                max_spread: *max_spread,
            },
            ExternalExecuteMsg::Withdraw { chain_id, recipient } => ExternalExecuteMsgView::Withdraw {
                chain_id: chain_id@,
                recipient: recipient@,
            },
            ExternalExecuteMsg::ReWithdraw { nonce } => ExternalExecuteMsgView::ReWithdraw {
                nonce: *nonce,
            },
            ExternalExecuteMsg::CancelWithdraw {
                nonce,
            } => ExternalExecuteMsgView::CancelWithdraw { nonce: *nonce },
        }
    }
}

} // verus!
