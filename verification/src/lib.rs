//! The HeyReach command-line client: request construction, response interpretation,
//! account resolution and error classification, verified with Verus.

pub mod text;
pub mod json;
pub mod error;
pub mod client;
pub mod commands;
pub mod config;
pub mod account;
pub mod cli;
pub mod readme;
