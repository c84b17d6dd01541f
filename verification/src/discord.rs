//! Rich presence: what the chat client is told about the game, and when.

pub mod rpc;
pub mod service;
