//! Package manager and build orchestrator for Lingua Franca projects:
//! backend selection, batch build orchestration with a keep-going policy,
//! and error aggregation across many apps.

pub mod args;
pub mod backends;
pub mod errors;
pub mod orchestrator;
pub mod package;
