//! The collector contract: owners, local relays and transfers to a remote
//! chain by the bridge of the host ledger.

pub mod contract;
pub mod msg;
pub mod state;
