//! The functions of the remote contract that this service calls, each with
//! its name and the kinds of its parameters.

use crate::abi::{FunctionSignature, FunctionSignatureView, ParamType};
use crate::registry::{ChainSetting, ChainSettingView};
use vstd::prelude::*;
use vstd::string::*;

verus! {

/// A function of the remote contract.
#[derive(Clone, Copy, Debug, PartialEq, Eq, Structural)]
pub enum RemoteFunction {
    /// `deploy_erc20(string,string,string,uint8,address)`
    DeployErc20,
    /// `send_token(address,address,uint256,uint256)`
    SendToken,
    /// `set_paloma()`
    SetPaloma,
    /// `update_compass(address)`
    UpdateCompass,
    /// `update_refund_wallet(address)`
    UpdateRefundWallet,
    /// `update_gas_fee(uint256)`
    UpdateGasFee,
    /// `update_service_fee_collector(address)`
    UpdateServiceFeeCollector,
    /// `update_service_fee(uint256)`
    UpdateServiceFee,
}

impl RemoteFunction {
    /// The name of the function.
    pub open spec fn spec_name(self) -> Seq<char> {
        match self {
            RemoteFunction::DeployErc20 => "deploy_erc20"@,
            RemoteFunction::SendToken => "send_token"@,
            RemoteFunction::SetPaloma => "set_paloma"@,
            RemoteFunction::UpdateCompass => "update_compass"@,
            RemoteFunction::UpdateRefundWallet => "update_refund_wallet"@,
            RemoteFunction::UpdateGasFee => "update_gas_fee"@,
            RemoteFunction::UpdateServiceFeeCollector => "update_service_fee_collector"@,
            RemoteFunction::UpdateServiceFee => "update_service_fee"@,
        }
    }

    /// The kinds of the function's parameters, in order.
    pub open spec fn spec_parameters(self) -> Seq<ParamType> {
        match self {
            RemoteFunction::DeployErc20 => seq![
                ParamType::String,
                ParamType::String,
                ParamType::String,
                ParamType::Uint(8),
                ParamType::Address,
            ],
            RemoteFunction::SendToken => seq![
                ParamType::Address,
                ParamType::Address,
                ParamType::Uint(256),
                ParamType::Uint(256),
            ],
            RemoteFunction::SetPaloma => seq![],
            RemoteFunction::UpdateCompass => seq![ParamType::Address],
            RemoteFunction::UpdateRefundWallet => seq![ParamType::Address],
            RemoteFunction::UpdateGasFee => seq![ParamType::Uint(256)],
            RemoteFunction::UpdateServiceFeeCollector => seq![ParamType::Address],
            RemoteFunction::UpdateServiceFee => seq![ParamType::Uint(256)],
        }
    }

    /// The signature of the function.
    pub open spec fn spec_signature(self) -> FunctionSignatureView {
        FunctionSignatureView { name: self.spec_name(), parameters: self.spec_parameters() }
    }

    /// Whether a call of the function deploys a contract. Such calls travel
    /// by the deployment job of the chain, all others by its main job.
    pub open spec fn spec_is_deployment(self) -> bool {
        self == RemoteFunction::DeployErc20
    }

    /// The relay job that carries a call of the function to a chain with
    /// this setting.
    pub open spec fn spec_job_id(self, setting: ChainSettingView) -> Seq<char> {
        if self.spec_is_deployment() {
            setting.compass_job_id
        } else {
            setting.main_job_id
        }
    }

    /// The name of the function.
    pub fn name(&self) -> (name: &'static str)
        ensures
            name@ == self.spec_name(),
    {
        match self {
            RemoteFunction::DeployErc20 => "deploy_erc20",
            RemoteFunction::SendToken => "send_token",
            RemoteFunction::SetPaloma => "set_paloma",
            RemoteFunction::UpdateCompass => "update_compass",
            RemoteFunction::UpdateRefundWallet => "update_refund_wallet",
            RemoteFunction::UpdateGasFee => "update_gas_fee",
            RemoteFunction::UpdateServiceFeeCollector => "update_service_fee_collector",
            RemoteFunction::UpdateServiceFee => "update_service_fee",
        }
    }

    /// The kinds of the function's parameters, in order.
    pub fn parameters(&self) -> (parameters: Vec<ParamType>)
        ensures
            parameters@ == self.spec_parameters(),
    {
        match self {
            RemoteFunction::DeployErc20 => vec![
                ParamType::String,
                ParamType::String,
                ParamType::String,
                ParamType::Uint(8),
                ParamType::Address,
            ],
            RemoteFunction::SendToken => vec![
                ParamType::Address,
                ParamType::Address,
                ParamType::Uint(256),
                ParamType::Uint(256),
            ],
            RemoteFunction::SetPaloma => Vec::new(),
            RemoteFunction::UpdateCompass => vec![ParamType::Address],
            RemoteFunction::UpdateRefundWallet => vec![ParamType::Address],
            RemoteFunction::UpdateGasFee => vec![ParamType::Uint(256)],
            RemoteFunction::UpdateServiceFeeCollector => vec![ParamType::Address],
            RemoteFunction::UpdateServiceFee => vec![ParamType::Uint(256)],
        }
    }

    /// The signature of the function.
    pub fn signature(&self) -> (signature: FunctionSignature)
        ensures
            signature@ == self.spec_signature(),
    {
        FunctionSignature { name: String::from_str(self.name()), parameters: self.parameters() }
    }

    /// Whether a call of the function deploys a contract.
    pub fn is_deployment(&self) -> (deploys: bool)
        ensures
            deploys == self.spec_is_deployment(),
    {
        match self {
            RemoteFunction::DeployErc20 => true,
            _ => false,
        }
    }

    /// The relay job that carries a call of the function to a chain with
    /// this setting.
    pub fn job_id(&self, setting: &ChainSetting) -> (job_id: String)
        ensures
            job_id@ == self.spec_job_id(setting@),
    {
        if self.is_deployment() {
            setting.compass_job_id.clone()
        } else {
            setting.main_job_id.clone()
        }
    }
}

} // verus!
