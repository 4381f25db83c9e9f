//! Parts of the node that keep state of their own.

pub mod block_synchronizer;
pub mod network;
