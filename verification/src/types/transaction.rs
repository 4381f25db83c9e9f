//! Transactions and how they are put together.

pub mod drawn;
pub mod fields;
pub mod transaction_v1_builder;
