//! Administrative control plane of a cross-chain asset-management service.
//!
//! A small set of owners issue commands. Each command is authorised against
//! the owner set and then either relayed to a contract on the same ledger,
//! applied to the per-chain routing registry, or turned into a byte-encoded
//! call that a relay delivers to a contract on a remote chain.

pub mod abi;
pub mod addr;
pub mod catalog;
pub mod collector;
pub mod cosmos;
pub mod error;
pub mod external;
pub mod manager;
pub mod owners;
pub mod registry;
pub mod relay;
pub mod uint;
