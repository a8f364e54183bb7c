//! Verified core of the Vultr command-line client.

pub mod codec;
pub mod config;
pub mod api;
pub mod error;
pub mod handlers;
pub mod models;
pub mod output;
pub mod text;
