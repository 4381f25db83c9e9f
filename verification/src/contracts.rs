//! Example smart contracts: what they hold and how their entry points change it. Reading and
//! writing the state on chain, and calling other contracts, is left to the host.

pub mod vm2_trait;
pub mod vm2_upgradable_v2;
