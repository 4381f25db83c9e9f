//! Catching up with the chain.

pub mod peer_list;
