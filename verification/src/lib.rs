//! Consensus verifier for an Ethereum beacon-chain light client.
//!
//! Given a trusted sync-committee checkpoint, the library validates the
//! updates published by a full node and advances a local view of the
//! finalized chain.

pub mod beacon;
pub mod bls;
pub mod context;
pub mod errors;
pub mod fork;
pub mod hash;
pub mod merkle;
pub mod rpc;
pub mod ssz;
pub mod store;
pub mod sync_protocol;
pub mod types;
pub mod validation;
