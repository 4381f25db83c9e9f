//! Command-line option parsing.
//!
//! Most configuration is done through the configuration, which is the only required command-line
//! argument. However some configuration values can be overwritten for convenience's sake.

use vstd::prelude::*;

verus! {

/// CasperLabs blockchain node.
#[derive(Debug, Clone, PartialEq, Eq)]
pub enum Cli {
    /// Generate a configuration file from defaults and dump it to stdout.
    GenerateConfig {  },
    /// Run the validator node.
    ///
    /// Loads the configuration values from the given configuration file or uses defaults if not
    /// given, then launches the reactor.
    Validator {
        /// Path to configuration file.
        config: Option<String>,
    },
}

/// What a command calls for.
#[derive(Debug, Clone, PartialEq, Eq)]
pub enum Plan {
    /// The default configuration is written to the standard output.
    DumpDefaultConfig,
    /// The validator is launched with the default configuration.
    LaunchWithDefaults,
    /// The validator is launched with the configuration loaded from the file at the path.
    LaunchWithConfig(String),
}

impl Cli {
    /// What the command calls for.
    pub open spec fn spec_plan(self) -> Plan {
        match self {
            Cli::GenerateConfig {  } => Plan::DumpDefaultConfig,
            Cli::Validator { config: None } => Plan::LaunchWithDefaults,
            Cli::Validator { config: Some(path) } => Plan::LaunchWithConfig(path),
        }
    }

    /// What the command calls for: the configuration is loaded from the file given, if any,
    /// otherwise the defaults are used.
    pub fn plan(self) -> (plan: Plan)
        ensures
            plan == self.spec_plan(),
    {
        match self {
            Cli::GenerateConfig {  } => Plan::DumpDefaultConfig,
            Cli::Validator { config: None } => Plan::LaunchWithDefaults,
            Cli::Validator { config: Some(path) } => Plan::LaunchWithConfig(path),
        }
    }
}

} // verus!
