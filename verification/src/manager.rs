//! The manager contract: owners, per-chain routing, local relays and calls
//! of the remote contract.

pub mod contract;
pub mod msg;
pub mod state;
