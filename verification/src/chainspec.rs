//! The chain's configuration.

pub mod vm_config;
