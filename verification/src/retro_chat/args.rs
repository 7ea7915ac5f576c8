//! The arguments of the chat client.

use vstd::prelude::*;

verus! {

/// What the user asks of the chat client.
#[derive(Debug)]
pub struct Args {
    /// The name that the user goes by.
    pub name: String,
    /// The address of the server.
    pub server: String,
}

} // verus!
