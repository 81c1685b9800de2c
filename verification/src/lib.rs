//! A typed client library for a schema registry service.
//!
//! The library decides everything about a call but its transport: which
//! requests a registry operation needs, how the answers of several endpoints
//! are raced into one outcome, and how a raw answer is classified.

pub mod client;
pub mod error;
pub mod list;
pub mod text;
pub mod types;
