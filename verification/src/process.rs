//! What the operating system reports of creation and of waiting, as plain
//! values.

use vstd::prelude::*;

verus! {

/// `nix::unistd::Pid`, the process identifier of `nix`.
///
/// Declared so that it can be carried from creation to waiting. Nothing is
/// assumed of what it holds, and the launcher never looks.
#[verifier::external_type_specification]
#[verifier::external_body]
pub struct ExPid(nix::unistd::Pid);

/// Names the execution context that creation made.
///
/// Only the original context ever holds one. It is handed out once and
/// cannot be copied; it has served once the wait on it has completed.
#[derive(Debug, PartialEq, Eq)]
pub struct ChildHandle {
    /// The identifier that creation returned to the original context.
    pub pid: nix::unistd::Pid,
}

/// Which of the two contexts is running after a successful creation.
#[derive(Debug, PartialEq, Eq)]
pub enum ForkOutcome {
    /// The context that asked for the creation. It learns the child's
    /// handle.
    Original { child: ChildHandle },
    /// The context that was created.
    New,
}

/// What a completed wait reports of the child.
#[derive(Clone, Copy, Debug, PartialEq, Eq, Structural)]
pub enum WaitOutcome {
    /// The child ran to its end.
    Exited,
    /// A signal ended the child.
    Signaled,
    /// The child is stopped and may go on later.
    Stopped,
    /// The child goes on after a stop.
    Continued,
    /// Nothing has changed: the child is running.
    StillAlive,
}

impl WaitOutcome {
    /// Whether the child is gone for good. How it ended makes no difference.
    pub open spec fn is_terminal(self) -> bool {
        self is Exited || self is Signaled
    }

    /// Whether the child is gone for good.
    pub fn terminated(&self) -> (gone: bool)
        ensures
            gone == self.is_terminal(),
    {
        match self {
            WaitOutcome::Exited => true,
            WaitOutcome::Signaled => true,
            WaitOutcome::Stopped => false,
            WaitOutcome::Continued => false,
            WaitOutcome::StillAlive => false,
        }
    }
}

} // verus!
