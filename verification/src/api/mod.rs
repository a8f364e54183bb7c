//! The client's request logic: paths, retries, error mapping and waiting.

pub mod client;
pub mod query;
pub mod retry;
pub mod wait;
