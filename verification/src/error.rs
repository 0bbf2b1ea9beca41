//! The failure value shared by every step of a launch.

use vstd::prelude::*;
use vstd::std_specs::convert::FromSpecImpl;

verus! {

/// `nix::errno::Errno`, the error number that `nix` hands back when a system
/// call fails.
///
/// Declared so that a driver can hand the value over as it got it. Nothing
/// is assumed of what it holds, and the launcher never looks: whatever the
/// cause, the failure is an [`ErrorKind::OsFailure`].
#[verifier::external_type_specification]
#[verifier::external_body]
pub struct ExErrno(nix::errno::Errno);

/// The two sources of failure.
#[derive(Clone, Copy, Debug, PartialEq, Eq, Structural)]
pub enum ErrorKind {
    /// Creation, image replacement or waiting was refused by the operating
    /// system.
    OsFailure,
    /// The arguments cannot be written as null-terminated text.
    EncodingFailure,
}

/// An argument holds a zero byte, which null-terminated text cannot carry.
#[derive(Clone, Copy, Debug, PartialEq, Eq, Structural)]
pub struct NulError {
    /// Index of the first zero byte in the argument.
    pub position: usize,
}

/// The failure value of this crate.
///
/// Only the kind survives: the cause that the operating system or the
/// encoder gave is dropped when the value is made.
#[derive(Clone, Copy, Debug, PartialEq, Eq, Structural)]
pub struct TracersError {
    /// Which source the failure came from.
    pub kind: ErrorKind,
}

impl TracersError {
    /// A failure of the operating system.
    pub fn os_failure() -> (e: TracersError)
        ensures
            e.kind == ErrorKind::OsFailure,
    {
        TracersError { kind: ErrorKind::OsFailure }
    }

    /// A failure to encode the arguments.
    pub fn encoding_failure() -> (e: TracersError)
        ensures
            e.kind == ErrorKind::EncodingFailure,
    {
        TracersError { kind: ErrorKind::EncodingFailure }
    }

    /// The line shown to the user when a launch fails. It is the same for
    /// every kind of failure.
    pub fn diagnostic(&self) -> (line: String)
        ensures
            line@ == diagnostic_line(),
    {
        "An error occurred: TracersError".to_owned()
    }
}

/// The text of the diagnostic line.
pub open spec fn diagnostic_line() -> Seq<char> {
    "An error occurred: TracersError"@
}

impl From<nix::errno::Errno> for TracersError {
    /// Every failure of a system call is an [`ErrorKind::OsFailure`].
    fn from(cause: nix::errno::Errno) -> (e: TracersError) {
        TracersError::os_failure()
    }
}

impl FromSpecImpl<nix::errno::Errno> for TracersError {
    open spec fn obeys_from_spec() -> bool {
        true
    }

    open spec fn from_spec(cause: nix::errno::Errno) -> TracersError {
        TracersError { kind: ErrorKind::OsFailure }
    }
}

impl From<NulError> for TracersError {
    /// Every zero byte in an argument is an [`ErrorKind::EncodingFailure`].
    fn from(cause: NulError) -> (e: TracersError) {
        TracersError::encoding_failure()
    }
}

impl FromSpecImpl<NulError> for TracersError {
    open spec fn obeys_from_spec() -> bool {
        true
    }

    open spec fn from_spec(cause: NulError) -> TracersError {
        TracersError { kind: ErrorKind::EncodingFailure }
    }
}

} // verus!
