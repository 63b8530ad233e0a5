//! Verified core of the AgentGen API client: request and response types,
//! the requests that each API operation sends, and how an API reply is
//! turned into a result or an error.
pub mod body;
pub mod cli;
pub mod client;
pub mod error;
pub mod text;
pub mod types;

pub use client::AgentGenClient;
pub use error::AgentGenError;
