//! Escalation of internal errors into structured wire statuses.
//!
//! A service method never lets a raw internal error cross the service
//! boundary. [`escalate`] runs on the outcome of the method's unit of work:
//! a success passes through unchanged, and every failure is adapted into a
//! [`FailureStatus`] — a wire-level code chosen by the error itself, a human
//! message explicitly chosen for reporting, and a structured detail record
//! for machine consumption.

use crate::probe::ProbeError;
use vstd::prelude::*;

verus! {

/// The small fixed set of wire-level response codes a failure can carry.
#[derive(Clone, Copy, Debug, PartialEq, Eq, Structural)]
pub enum WireCode {
    /// The caller's request was malformed.
    InvalidArgument,
    /// The server could not complete the operation.
    Internal,
    /// A resource the operation needs is not reachable.
    Unavailable,
}

/// One structured, machine-readable detail of a failure.
#[derive(Debug)]
pub enum DetailRecord {
    /// A stable reason token naming the failure class.
    Info { reason: String },
    /// A request field and why it was rejected.
    Violation { field: String, description: String },
}

/// The detail record as the specification sees it.
pub enum DetailView {
    Info { reason: Seq<char> },
    Violation { field: Seq<char>, description: Seq<char> },
}

impl View for DetailRecord {
    type V = DetailView;

    closed spec fn view(&self) -> DetailView {
        match self {
            DetailRecord::Info { reason } => DetailView::Info { reason: reason@ },
            DetailRecord::Violation { field, description } => DetailView::Violation {
                field: field@,
                description: description@,
            },
        }
    }
}

/// The structured failure a remote caller observes: a wire code, a human
/// message, and an ordered sequence of typed detail records. Constructed only
/// by the escalation layer.
#[derive(Debug)]
pub struct FailureStatus {
    pub code: WireCode,
    pub message: String,
    pub details: Vec<DetailRecord>,
}

/// An internal failure raised by a service method's unit of work. Each kind
/// carries its own intended wire code, so the escalation layer never has to
/// guess whether the caller or the server is at fault.
#[derive(Debug)]
pub enum InternalError {
    /// The local system probe failed.
    Probe(ProbeError),
    /// The transport channel could not be established.
    Transport(String),
    /// The request itself was malformed: the offending field and why.
    Invalid { field: String, description: String },
}

/// The wire code an internal error is reported under.
pub open spec fn wire_code_of(e: InternalError) -> WireCode {
    match e {
        InternalError::Probe(_) => WireCode::Internal,
        InternalError::Transport(_) => WireCode::Unavailable,
        InternalError::Invalid { .. } => WireCode::InvalidArgument,
    }
}

/// The human message an internal error is reported with: exactly what the
/// error chose to report, never anything else.
pub open spec fn wire_message_of(e: InternalError) -> Seq<char> {
    match e {
        InternalError::Probe(ProbeError::ResourceAccess(m)) => m@,
        InternalError::Probe(ProbeError::NotText) => "probe result is not valid text"@,
        InternalError::Transport(m) => m@,
        InternalError::Invalid { field: _, description } => description@,
    }
}

/// The single detail record an internal error is reported with.
pub open spec fn wire_detail_of(e: InternalError) -> DetailView {
    match e {
        InternalError::Probe(ProbeError::ResourceAccess(_)) => DetailView::Info {
            reason: "PROBE_RESOURCE_UNREADABLE"@,
        },
        InternalError::Probe(ProbeError::NotText) => DetailView::Info {
            reason: "PROBE_NOT_TEXT"@,
        },
        InternalError::Transport(_) => DetailView::Info { reason: "TRANSPORT_UNAVAILABLE"@ },
        InternalError::Invalid { field, description } => DetailView::Violation {
            field: field@,
            description: description@,
        },
    }
}

/// Whether `st` is exactly the adaptation of the internal error `e`.
pub open spec fn status_adapts(st: FailureStatus, e: InternalError) -> bool {
    &&& st.code == wire_code_of(e)
    &&& st.message@ == wire_message_of(e)
    &&& st.details@.len() == 1
    &&& st.details@[0]@ == wire_detail_of(e)
}

/// Runs the escalation layer on the outcome of a unit of work: a success is
/// returned unchanged, and every internal error — whichever kind the work
/// raised — is adapted into the structured failure status it specifies, so
/// no internal error value ever crosses the service boundary.
pub fn escalate<R>(outcome: Result<R, InternalError>) -> (r: Result<R, FailureStatus>)
    ensures
        match outcome {
            Ok(resp) => r matches Ok(out) && out == resp,
            Err(e) => r matches Err(st) && status_adapts(st, e),
        },
{
    match outcome {
        Ok(resp) => Ok(resp),
        Err(e) => Err(adapt(e)),
    }
}

/// Builds the failure status for one internal error.
fn adapt(e: InternalError) -> (st: FailureStatus)
    ensures
        status_adapts(st, e),
{
    match e {
        InternalError::Probe(ProbeError::ResourceAccess(m)) => FailureStatus {
            code: WireCode::Internal,
            message: m,
            details: one_detail(DetailRecord::Info {
                reason: "PROBE_RESOURCE_UNREADABLE".to_owned(),
            }),
        },
        InternalError::Probe(ProbeError::NotText) => FailureStatus {
            code: WireCode::Internal,
            message: "probe result is not valid text".to_owned(),
            details: one_detail(DetailRecord::Info { reason: "PROBE_NOT_TEXT".to_owned() }),
        },
        InternalError::Transport(m) => FailureStatus {
            code: WireCode::Unavailable,
            message: m,
            details: one_detail(DetailRecord::Info { reason: "TRANSPORT_UNAVAILABLE".to_owned() }),
        },
        InternalError::Invalid { field, description } => FailureStatus {
            code: WireCode::InvalidArgument,
            message: description.clone(),
            details: one_detail(DetailRecord::Violation { field, description }),
        },
    }
}

/// A detail sequence holding exactly `d`.
fn one_detail(d: DetailRecord) -> (r: Vec<DetailRecord>)
    ensures
        r@.len() == 1,
        r@[0] == d,
{
    let mut r: Vec<DetailRecord> = Vec::new();
    r.push(d);
    r
}

} // verus!
