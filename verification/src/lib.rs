//! Service request pipeline for probe-backed RPC services.
//!
//! The library has two verified components. The probe cache
//! ([`probe::ProbeCache`]) memoizes the result of one expensive local system
//! read per probe key: the value is computed at most once, failures are never
//! cached, and every later caller is served the stored value. The escalation
//! layer ([`status::escalate`]) adapts every internal error into a structured
//! wire status, so that no raw internal error ever crosses the service
//! boundary. The hardware-identity service ([`hwid_api`]) composes the two.
//!
//! The probe itself (a file read), the locking that serialises concurrent
//! callers, and the transport live outside the library; they hand the library
//! plain values and take plain values back.

pub mod endpoint;
pub mod hwid_api;
pub mod probe;
pub mod status;
