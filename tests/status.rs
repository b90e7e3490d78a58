use iree_runtime::error::check_status;
use iree_runtime::error::RuntimeError;
use iree_runtime::status::Status;
use iree_runtime::status::StatusError;
use iree_runtime::status::StatusErrorKind;

const KINDS: [StatusErrorKind; 17] = [
    StatusErrorKind::Cancelled,
    StatusErrorKind::Unknown,
    StatusErrorKind::InvalidArgument,
    StatusErrorKind::DeadlineExceeded,
    StatusErrorKind::NotFound,
    StatusErrorKind::AlreadyExists,
    StatusErrorKind::PermissionDenied,
    StatusErrorKind::ResourceExhausted,
    StatusErrorKind::FailedPrecondition,
    StatusErrorKind::Aborted,
    StatusErrorKind::OutOfRange,
    StatusErrorKind::Unimplemented,
    StatusErrorKind::Internal,
    StatusErrorKind::Unavailable,
    StatusErrorKind::DataLoss,
    StatusErrorKind::Unauthenticated,
    StatusErrorKind::Deferred,
];

#[test]
fn codes_map_to_kinds_and_back() {
    for (i, kind) in KINDS.iter().enumerate() {
        let code = (i + 1) as u32;
        assert_eq!(StatusErrorKind::from_code(code), *kind);
        assert_eq!(kind.code(), code);
        assert_eq!(StatusErrorKind::from(code), *kind);
    }
}

#[test]
fn unrecognised_codes_fall_into_catch_all() {
    assert_eq!(StatusErrorKind::from_code(0), StatusErrorKind::UnknownStatus);
    assert_eq!(StatusErrorKind::from_code(18), StatusErrorKind::UnknownStatus);
    assert_eq!(StatusErrorKind::from_code(u32::MAX), StatusErrorKind::UnknownStatus);
}

#[test]
fn not_found_code() {
    assert_eq!(StatusErrorKind::from_code(5), StatusErrorKind::NotFound);
    assert_eq!(StatusErrorKind::NotFound.code(), 5);
}

#[test]
fn status_from_code_carries_kind() {
    let s = Status::from_code(StatusErrorKind::OutOfRange);
    assert!(!s.is_ok());
    assert_eq!(s.raw(), 11);
    assert_eq!(s.code(), 11);
    assert_eq!(s.kind(), StatusErrorKind::OutOfRange);
}

#[test]
fn status_code_sits_in_low_bits() {
    let s = Status::from_raw(0x1000 | 9);
    assert_eq!(s.code(), 9);
    assert_eq!(s.kind(), StatusErrorKind::FailedPrecondition);
    assert!(!s.is_ok());
}

#[test]
fn ok_status_converts_to_ok() {
    assert!(Status::from_raw(0).is_ok());
    assert_eq!(Status::from_raw(0).to_result(), Ok(()));
}

#[test]
fn failed_status_converts_to_error() {
    let r = Status::from_raw(0x2003).to_result();
    match r {
        Err(e) => {
            assert_eq!(e.status.raw(), 0x2003);
            assert_eq!(e.kind(), StatusErrorKind::InvalidArgument);
        }
        Ok(()) => panic!("expected a failure"),
    }
}

#[test]
fn join_two_successes_is_success() {
    assert!(Status::from_raw(0).chain(Status::from_raw(0)).is_ok());
}

#[test]
fn join_success_with_failure_keeps_failure() {
    let a = Status::from_raw(0).chain(Status::from_raw(0x3005));
    assert_eq!(a.raw(), 0x3005);
    let b = Status::from_raw(0x3005).chain(Status::from_raw(0));
    assert_eq!(b.raw(), 0x3005);
}

#[test]
fn join_two_failures_keeps_first() {
    let s = Status::from_raw(0x4001).chain(Status::from_raw(0x5002));
    assert_eq!(s.raw(), 0x4001);
}

#[test]
fn message_quotes_rendered_text() {
    assert_eq!(
        StatusError::message(Some("NOT_FOUND; no device")),
        "Status: \"NOT_FOUND; no device\""
    );
    assert_eq!(StatusError::message(Some("a\"b")), "Status: \"a\\\"b\"");
}

#[test]
fn message_without_rendering() {
    assert_eq!(
        StatusError::message(None),
        "Status: <failed to convert to string>"
    );
}

#[test]
fn check_status_routes_failures() {
    assert_eq!(check_status(0), Ok(()));
    match check_status(5) {
        Err(RuntimeError::StatusError(e)) => assert_eq!(e.kind(), StatusErrorKind::NotFound),
        Ok(()) => panic!("expected a failure"),
    }
}
