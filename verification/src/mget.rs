//! Pieces of a small HTTP client that brings its own network stack.

pub mod args;
pub mod ethernet;
