//! Configuration of the remote endpoint a client connects to.
//!
//! Establishing the channel (name resolution, handshake, retries) is the
//! transport collaborator's business and happens outside the library; the
//! library only carries the configuration.

use vstd::prelude::*;

verus! {

/// Where a client connects: the address of the remote endpoint.
pub struct EndpointConfig {
    pub address: String,
}

impl EndpointConfig {
    /// A configuration for the endpoint at `address`.
    pub fn new(address: String) -> (c: Self)
        ensures
            c.address@ == address@,
    {
        EndpointConfig { address }
    }
}

} // verus!
