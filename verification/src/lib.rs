//! Deterministic block execution for a proof-of-stake validator node, together with the
//! chain-synchronisation and configuration types the node shares across components.

pub mod arith;
pub mod bytesrepr;
pub mod chainspec;
pub mod cli;
pub mod components;
pub mod consensus;
pub mod contract_runtime;
pub mod contracts;
pub mod digest;
pub mod identity;
pub mod primitives;
pub mod random;
pub mod types;
