//! The hardware-identity service: one query answered from the probe cache.
//!
//! The server owns a [`ProbeCache`] keyed by the network interface whose
//! address file is the probe. Callers outside the library serialise access,
//! perform the file read when the cache is empty, and carry the envelopes
//! over the wire; every decision — serve the memoized value, normalize and
//! store a fresh read, or escalate a failure — is made here.

use crate::endpoint::EndpointConfig;
use crate::probe::{normalized, probe_view, slot_after, ProbeCache, ProbeError};
use crate::status::{escalate, status_adapts, FailureStatus, InternalError};
use vstd::prelude::*;

verus! {

/// The decoded hardware-identity request. The query needs no fields.
#[derive(Debug)]
pub struct HwIdRequest {}

/// The decoded hardware-identity response: the probed identifier.
#[derive(Debug)]
pub struct HwIdResponse {
    pub identifier: String,
}

/// Server side of the hardware-identity service: the probe cache for one
/// interface, plus the decisions of the query method.
pub struct HwIdServiceServer {
    cache: ProbeCache,
}

impl HwIdServiceServer {
    /// The probe key: the interface whose address file is read.
    pub closed spec fn key(&self) -> Seq<char> {
        self.cache.key()
    }

    /// The memoized identifier, if one has been computed.
    pub closed spec fn slot(&self) -> Option<Seq<char>> {
        self.cache.slot()
    }

    /// A server for `interface`, with nothing probed yet.
    pub fn new(interface: String) -> (s: Self)
        ensures
            s.key() == interface@,
            s.slot() is None,
    {
        HwIdServiceServer { cache: ProbeCache::new(interface) }
    }

    /// The probe key, so the caller can address the underlying resource.
    pub fn interface(&self) -> (r: &String)
        ensures
            r@ == self.key(),
    {
        self.cache.interface()
    }

    /// The response served from the memoized value alone, or nothing when the
    /// caller must perform the probe first.
    pub fn get_hw_id_cached(&self) -> (r: Option<HwIdResponse>)
        ensures
            r is Some <==> self.slot() is Some,
            r matches Some(resp) ==> self.slot() == Some(resp.identifier@),
    {
        match self.cache.lookup() {
            Some(id) => Some(HwIdResponse { identifier: id }),
            None => None,
        }
    }

    /// Answers the hardware-identity query given the probe outcome: the
    /// memoized value is served if one is stored, a fresh successful read is
    /// normalized, stored and served, and every failure is escalated into a
    /// structured wire status. A failure leaves the cache slot untouched, so
    /// a later request may retry.
    pub fn get_hw_id(&mut self, _request: HwIdRequest, probe: Result<Vec<u8>, String>) -> (r:
        Result<HwIdResponse, FailureStatus>)
        ensures
            final(self).key() == old(self).key(),
            final(self).slot() == slot_after(old(self).slot(), probe_view(probe)),
            match old(self).slot() {
                Some(v) => r matches Ok(resp) && resp.identifier@ == v,
                None => match probe {
                    Ok(raw) => match normalized(raw@) {
                        Some(c) => r matches Ok(resp) && resp.identifier@ == c,
                        None => r matches Err(st) && status_adapts(
                            st,
                            InternalError::Probe(ProbeError::NotText),
                        ),
                    },
                    Err(m) => r matches Err(st) && status_adapts(
                        st,
                        InternalError::Probe(ProbeError::ResourceAccess(m)),
                    ),
                },
            },
    {
        let outcome: Result<HwIdResponse, InternalError> = match self.cache.get_or_compute(probe) {
            Ok(id) => Ok(HwIdResponse { identifier: id }),
            Err(e) => Err(InternalError::Probe(e)),
        };
        escalate(outcome)
    }
}

/// Client side of the hardware-identity service. Establishing the channel and
/// carrying the call are the transport's business; the client owns the
/// endpoint configuration and unwraps the response envelope.
pub struct HwIdClient {
    endpoint: EndpointConfig,
}

impl HwIdClient {
    /// The address of the remote endpoint the client connects to.
    pub closed spec fn endpoint_address(&self) -> Seq<char> {
        self.endpoint.address@
    }

    /// A client for the endpoint described by `endpoint`.
    pub fn new(endpoint: EndpointConfig) -> (c: Self)
        ensures
            c.endpoint_address() == endpoint.address@,
    {
        HwIdClient { endpoint }
    }

    /// The endpoint configuration, for the transport that connects.
    pub fn endpoint(&self) -> (r: &EndpointConfig)
        ensures
            r.address@ == self.endpoint_address(),
    {
        &self.endpoint
    }

    /// The query sent by `get_id`.
    pub fn make_request(&self) -> HwIdRequest {
        HwIdRequest {  }
    }

    /// The identifier carried by a hardware-identity response: what `get_id`
    /// yields once the transport has delivered the envelope.
    pub fn accept_response(&self, resp: HwIdResponse) -> (r: String)
        ensures
            r@ == resp.identifier@,
    {
        resp.identifier
    }
}

} // verus!
