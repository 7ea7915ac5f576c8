//! The arguments of the client.

use vstd::prelude::*;

verus! {

/// What the user asks of the client.
#[derive(Debug)]
pub struct Args {
    /// The address to fetch.
    pub url: String,
    /// The network device to send through.
    pub tap_device: String,
    /// The name server to ask.
    pub dns_server: String,
}

} // verus!
