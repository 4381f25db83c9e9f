//! The networking component, as far as others look into it.

pub mod insights;
