//! Verified core of a desktop game launcher: the settings record, the cached
//! server status, the local environment report and the install workflow.

pub mod error;
pub mod settings;
pub mod decimal;
pub mod launch;
pub mod status;
pub mod environment;
pub mod workflow;
pub mod laws;
pub mod state;
