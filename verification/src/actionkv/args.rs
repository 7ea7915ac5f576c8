//! The arguments of the store's command line.

use vstd::prelude::*;

verus! {

/// What the user asks of the store.
#[derive(Debug)]
pub struct Args {
    /// The file that holds the store.
    pub fname: String,
    /// What to do: `get`, `delete`, `insert` or `update`.
    pub action: String,
    /// The key to act on.
    pub key: String,
    /// The value, for the actions that take one.
    pub maybe_value: Option<String>,
}

} // verus!
