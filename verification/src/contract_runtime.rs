//! The block execution engine: applies a finalized block to global state, one decision at a
//! time, and assembles the block and its execution artifacts.
//!
//! The engine never touches global state or the virtual machine itself. It issues a
//! [`protocol::Request`], is handed the matching [`protocol::Response`], and decides what comes
//! next; whoever drives it performs the requests in the order they are issued.

pub mod artifact;
pub mod block;
pub mod checksum;
pub mod checksum_laws;
pub mod config;
pub mod era_end;
pub mod error;
pub mod gas;
pub mod laws;
pub mod model;
pub mod operations;
pub mod payer;
pub mod prune;
pub mod run_laws;
pub mod protocol;
pub mod settlement;
pub mod speculative;
pub mod types;
