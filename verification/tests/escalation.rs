use hwid_core::probe::ProbeError;
use hwid_core::status::{escalate, DetailRecord, InternalError, WireCode};

#[test]
fn success_passes_through_unchanged() {
    let out = escalate::<u64>(Ok(7)).unwrap();
    assert_eq!(out, 7);
}

#[test]
fn probe_access_failure_becomes_internal_status() {
    let err = InternalError::Probe(ProbeError::ResourceAccess(String::from(
        "permission denied",
    )));
    let status = escalate::<u64>(Err(err)).unwrap_err();
    assert_eq!(status.code, WireCode::Internal);
    assert_eq!(status.message, "permission denied");
    assert_eq!(status.details.len(), 1);
    assert!(matches!(
        &status.details[0],
        DetailRecord::Info { reason } if reason == "PROBE_RESOURCE_UNREADABLE"
    ));
}

#[test]
fn probe_text_failure_becomes_internal_status() {
    let status = escalate::<u64>(Err(InternalError::Probe(ProbeError::NotText))).unwrap_err();
    assert_eq!(status.code, WireCode::Internal);
    assert_eq!(status.message, "probe result is not valid text");
    assert_eq!(status.details.len(), 1);
    assert!(matches!(
        &status.details[0],
        DetailRecord::Info { reason } if reason == "PROBE_NOT_TEXT"
    ));
}

#[test]
fn transport_failure_becomes_unavailable_status() {
    let status = escalate::<u64>(Err(InternalError::Transport(String::from(
        "channel could not be established",
    ))))
    .unwrap_err();
    assert_eq!(status.code, WireCode::Unavailable);
    assert_eq!(status.message, "channel could not be established");
    assert_eq!(status.details.len(), 1);
    assert!(matches!(
        &status.details[0],
        DetailRecord::Info { reason } if reason == "TRANSPORT_UNAVAILABLE"
    ));
}

#[test]
fn malformed_request_becomes_invalid_argument_status() {
    let status = escalate::<u64>(Err(InternalError::Invalid {
        field: String::from("interface"),
        description: String::from("must not be empty"),
    }))
    .unwrap_err();
    assert_eq!(status.code, WireCode::InvalidArgument);
    assert_eq!(status.message, "must not be empty");
    assert_eq!(status.details.len(), 1);
    assert!(matches!(
        &status.details[0],
        DetailRecord::Violation { field, description }
            if field == "interface" && description == "must not be empty"
    ));
}
