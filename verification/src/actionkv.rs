//! The command line of a key-value store.

pub mod args;
