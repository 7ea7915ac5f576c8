//! The messages of a chat between terminals.

pub mod args;
pub mod message;
