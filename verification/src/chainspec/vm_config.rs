//! Costs of running the system contracts.

pub mod auction_costs;
pub mod handle_payment_costs;
pub mod mint_costs;
pub mod standard_payment_costs;
pub mod system_config;

pub use auction_costs::AuctionCosts;
pub use handle_payment_costs::HandlePaymentCosts;
pub use mint_costs::MintCosts;
pub use standard_payment_costs::StandardPaymentCosts;
pub use system_config::SystemConfig;
