//! The commands and queries of the manager contract, and the custom
//! message that it hands to the relay.

use crate::addr::Addr;
use crate::cosmos::Coin;
use crate::external::Decimal;
use crate::manager::state::{ChainSetting, ChainSettingView, State, StateView};
use crate::uint::Uint256;
use vstd::prelude::*;

pub use crate::external::{AssetInfo, ExternalExecuteMsg, SwapOperation};

verus! {

/// What the contract starts with.
#[derive(Debug, PartialEq, Eq)]
pub struct InstantiateMsg {
    pub retry_delay: u64,
    pub owners: Vec<Addr>,
}

/// A command. Every command is open to owners only.
#[allow(inconsistent_fields)]
#[derive(Debug, PartialEq, Eq)]
pub enum ExecuteMsg {
    /// Deploys a token contract on the chain `chain_id`.
    DeployPalomaErc20 {
        chain_id: String,
        paloma_denom: String,
        name: String,
        symbol: String,
        decimals: u8,
        blueprint: String,
    },
    /// Asks the router `dex_router` to run the swaps on `funds`.
    Exchange {
        dex_router: Addr,
        operations: Vec<SwapOperation>,
        minimum_receive: Option<u128>,
        to: Option<String>,
        max_spread: Option<Decimal>,
        funds: Vec<Coin>,
    },
    /// Sends `amount` of `token` to the account `to` on the chain `chain_id`.
    SendToken { chain_id: String, token: String, to: String, amount: u128, nonce: u128 },
    /// Asks the withdrawal manager to send `amount` to `recipient` on the
    /// chain `chain_id`.
    WithdrawPusd { pusd_manager: Addr, chain_id: String, recipient: String, amount: u128 },
    /// Asks the withdrawal manager to repeat the withdrawal `nonce`.
    ReWithdrawPusd { pusd_manager: Addr, nonce: u64 },
    /// Asks the withdrawal manager to cancel the withdrawal `nonce`.
    CancelWithdrawPusd { pusd_manager: Addr, nonce: u64 },
    /// Registers the relay jobs of the chain `chain_id`.
    SetChainSetting { chain_id: String, compass_job_id: String, main_job_id: String },
    /// Calls `set_paloma` on the chain `chain_id`.
    SetPaloma { chain_id: String },
    /// Tells the remote contract its new compass.
    UpdateCompass { chain_id: String, new_compass: String },
    /// Tells the remote contract its new refund wallet.
    UpdateRefundWallet { chain_id: String, new_refund_wallet: String },
    /// Tells the remote contract its new gas fee.
    UpdateGasFee { chain_id: String, new_gas_fee: Uint256 },
    /// Tells the remote contract its new collector of service fees.
    UpdateServiceFeeCollector { chain_id: String, new_service_fee_collector: String },
    /// Tells the remote contract its new service fee.
    UpdateServiceFee { chain_id: String, new_service_fee: Uint256 },
    /// Replaces the retry delay, if one is given.
    UpdateConfig { retry_delay: Option<u64> },
    /// Adds each of `owners` to the owners.
    AddOwner { owners: Vec<Addr> },
    /// Takes `owner` out of the owners.
    RemoveOwner { owner: Addr },
}

/// A payload for the relay to deliver under the job `job_id`.
#[derive(Debug, PartialEq, Eq)]
pub struct ExecuteJob {
    pub job_id: String,
    pub payload: Vec<u8>,
}

/// What an `ExecuteJob` stands for.
pub struct ExecuteJobView {
    pub job_id: Seq<char>,
    pub payload: Seq<u8>,
}

impl View for ExecuteJob {
    type V = ExecuteJobView;

    open spec fn view(&self) -> ExecuteJobView {
        ExecuteJobView { job_id: self.job_id@, payload: self.payload@ }
    }
}

/// A message for the relay module of the host ledger.
#[derive(Debug, PartialEq, Eq)]
pub enum PalomaMsg {
    /// Asks the scheduler to run a job.
    SchedulerMsg { execute_job: ExecuteJob },
}

/// What a `PalomaMsg` stands for.
pub enum PalomaMsgView {
    SchedulerMsg { execute_job: ExecuteJobView },
}

impl View for PalomaMsg {
    type V = PalomaMsgView;

    open spec fn view(&self) -> PalomaMsgView {
        match self {
            PalomaMsg::SchedulerMsg { execute_job } => PalomaMsgView::SchedulerMsg {
                execute_job: execute_job@,
            },
        }
    }
}

/// A question to the contract.
#[derive(Debug, PartialEq, Eq)]
pub enum QueryMsg {
    /// Asks for the owners and the configuration.
    GetState {  },
    /// Asks for the setting of the chain `chain_id`.
    GetChainSetting { chain_id: String },
}

/// The answer to a question.
#[derive(Debug, PartialEq, Eq)]
pub enum QueryResponse {
    /// The owners and the configuration.
    State(State),
    /// The setting of the chain that was asked for.
    ChainSetting(ChainSetting),
}

/// What a `QueryResponse` stands for.
pub enum QueryResponseView {
    State(StateView),
    ChainSetting(ChainSettingView),
}

impl View for QueryResponse {
    type V = QueryResponseView;

    open spec fn view(&self) -> QueryResponseView {
        match self {
            QueryResponse::State(state) => QueryResponseView::State(state@),
            QueryResponse::ChainSetting(setting) => QueryResponseView::ChainSetting(setting@),
        }
    }
}

} // verus!
