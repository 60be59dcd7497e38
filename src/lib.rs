//! Named credential profiles for an API endpoint, and the decisions behind
//! switching between them through shell environment variables.

use vstd::prelude::*;

pub mod config;
pub mod laws;
pub mod mask;
pub mod provider;

pub use config::{Config, Provider};
pub use provider::{
    DriftStatus, EnvironmentReport, Environment, EvalOutput, ListEntry, ProviderManager,
    SwitchOutcome,
};

verus! {

} // verus!
