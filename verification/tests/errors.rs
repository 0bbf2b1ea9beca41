use nix::errno::Errno;
use tracers::error::{ErrorKind, NulError, TracersError};

#[test]
fn system_call_failures_are_os_failures() {
    assert_eq!(TracersError::from(Errno::ENOENT).kind, ErrorKind::OsFailure);
    assert_eq!(TracersError::from(Errno::EACCES).kind, ErrorKind::OsFailure);
    assert_eq!(TracersError::from(Errno::ECHILD).kind, ErrorKind::OsFailure);
    assert_eq!(TracersError::from(Errno::EAGAIN).kind, ErrorKind::OsFailure);
}

#[test]
fn zero_bytes_are_encoding_failures() {
    let failure = TracersError::from(NulError { position: 7 });
    assert_eq!(failure.kind, ErrorKind::EncodingFailure);
}

#[test]
fn the_cause_is_not_kept() {
    assert_eq!(
        TracersError::from(Errno::ENOENT),
        TracersError::from(Errno::ENOMEM)
    );
    assert_eq!(
        TracersError::from(NulError { position: 0 }),
        TracersError::from(NulError { position: 9 })
    );
}

#[test]
fn named_constructors_give_their_kind() {
    assert_eq!(TracersError::os_failure().kind, ErrorKind::OsFailure);
    assert_eq!(TracersError::encoding_failure().kind, ErrorKind::EncodingFailure);
    assert_ne!(TracersError::os_failure(), TracersError::encoding_failure());
}

#[test]
fn diagnostic_line_is_the_same_for_every_kind() {
    assert_eq!(
        TracersError::os_failure().diagnostic(),
        "An error occurred: TracersError"
    );
    assert_eq!(
        TracersError::encoding_failure().diagnostic(),
        "An error occurred: TracersError"
    );
}
