//! Reconciliation engine for a locally running game client's control API:
//! credential handling, change detection, side-effect decisions and the
//! polling cadence, all verified.
pub mod policy;
pub mod text;
pub mod phase;
pub mod client;
pub mod config;
pub mod state;
pub mod commands;
pub mod codec;
