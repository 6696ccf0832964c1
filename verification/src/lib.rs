//! Verified core of a client library for the GitHub Copilot CLI agent runtime.

pub mod client;
pub mod config;
pub mod dialogs;
pub mod error;
pub mod json;
pub mod jsonrpc;
pub mod process;
pub mod registry;
pub mod session;
pub mod session_fs;
pub mod text;
pub mod tools;
pub mod types;
