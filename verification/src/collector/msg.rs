//! The commands and queries of the collector contract, and the custom
//! message that it hands to the bridge.

use crate::addr::Addr;
use crate::cosmos::Coin;
use crate::external::Decimal;
use vstd::prelude::*;

pub use crate::external::{AssetInfo, ExternalExecuteMsg, SwapOperation};

verus! {

/// What the contract starts with.
#[derive(Debug, PartialEq, Eq)]
pub struct InstantiateMsg {
    pub owners: Vec<Addr>,
}

/// A command. Every command is open to owners only.
#[allow(inconsistent_fields)]
#[derive(Debug, PartialEq, Eq)]
pub enum ExecuteMsg {
    /// Asks the router `dex_router` to run the swaps on `funds`.
    Exchange {
        dex_router: Addr,
        operations: Vec<SwapOperation>,
        minimum_receive: Option<u128>,
        to: Option<String>,
        max_spread: Option<Decimal>,
        funds: Vec<Coin>,
    },
    /// Sends `amount` to `recipient` on the chain `chain_reference_id`.
    SendToEvm { recipient: String, amount: String, chain_reference_id: String },
    /// Cancels the transfer `transaction_id`.
    CancelTx { transaction_id: u64 },
    /// Asks the withdrawal manager to send `amount` to `recipient` on the
    /// chain `chain_id`.
    WithdrawPusd { pusd_manager: Addr, chain_id: String, recipient: String, amount: u128 },
    /// Asks the withdrawal manager to repeat the withdrawal `nonce`.
    ReWithdrawPusd { pusd_manager: Addr, nonce: u64 },
    /// Asks the withdrawal manager to cancel the withdrawal `nonce`.
    CancelWithdrawPusd { pusd_manager: Addr, nonce: u64 },
    /// Adds each of `owners` to the owners.
    AddOwner { owners: Vec<Addr> },
    /// Takes `owner` out of the owners.
    RemoveOwner { owner: Addr },
}

/// A transfer to an account on a remote chain.
#[derive(Debug, PartialEq, Eq)]
pub struct SendTx {
    pub remote_chain_destination_address: String,
    pub amount: String,
    pub chain_reference_id: String,
}

/// What a `SendTx` stands for.
pub struct SendTxView {
    pub remote_chain_destination_address: Seq<char>,
    pub amount: Seq<char>,
    pub chain_reference_id: Seq<char>,
}

impl View for SendTx {
    type V = SendTxView;

    open spec fn view(&self) -> SendTxView {
        SendTxView {
            remote_chain_destination_address: self.remote_chain_destination_address@,
            amount: self.amount@,
            chain_reference_id: self.chain_reference_id@,
        }
    }
}

/// The cancellation of a transfer.
#[derive(Clone, Copy, Debug, PartialEq, Eq)]
pub struct CancelTx {
    pub transaction_id: u64,
}

/// A message for the bridge module of the host ledger.
#[derive(Debug, PartialEq, Eq)]
pub enum PalomaMsg {
    /// Asks the bridge to make a transfer, or to cancel one.
    SkywayMsg { send_tx: Option<SendTx>, cancel_tx: Option<CancelTx> },
}

/// What a `PalomaMsg` stands for.
pub enum PalomaMsgView {
    SkywayMsg { send_tx: Option<SendTxView>, cancel_tx: Option<CancelTx> },
}

impl View for PalomaMsg {
    type V = PalomaMsgView;

    open spec fn view(&self) -> PalomaMsgView {
        match self {
            PalomaMsg::SkywayMsg { send_tx, cancel_tx } => PalomaMsgView::SkywayMsg {
                send_tx: match send_tx {
                    Some(send_tx) => Some(send_tx@),
                    None => None,
                },
                cancel_tx: *cancel_tx,
            },
        }
    }
}

/// A question to the contract.
#[derive(Debug, PartialEq, Eq)]
pub enum QueryMsg {
    /// Asks for the owners.
    GetState {  },
}

} // verus!
