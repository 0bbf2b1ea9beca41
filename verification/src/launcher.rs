//! The launch as a state machine.
//!
//! A launch starts with a command, creates one new execution context, and
//! then takes one of two roads: the original context waits for the child,
//! the new context replaces its image with the command. Each road ends in a
//! result. The machine never touches the operating system. It names the
//! [`Action`] that is due, and a driver that has performed it reports back
//! with an [`Event`].
//!
//! The two roads do not meet again. Image replacement that succeeds never
//! returns, so the new context has nothing more to report; image
//! replacement that fails is seen in the new context alone. The original
//! context learns only that its child has terminated, and counts that as
//! success whatever the child did: a command that ran and a command that
//! could not be found look the same to it. That gap is left open on
//! purpose. Closing it takes a channel between the two contexts, which this
//! launcher does not have.

use vstd::prelude::*;
use crate::command::{
    argument_bytes, encodable, encoded, is_argument_vector, lemma_encoded_is_argument_vector,
    Command,
};
use crate::error::{ErrorKind, TracersError};
use crate::process::{ChildHandle, ForkOutcome, WaitOutcome};

verus! {

/// What a driver reports after it has performed an action.
#[derive(Debug)]
pub enum Event {
    /// Creation returned, in one of the two contexts or with a failure.
    Forked(Result<ForkOutcome, nix::errno::Errno>),
    /// The wait on the child returned.
    Waited(Result<WaitOutcome, nix::errno::Errno>),
    /// Image replacement returned, which it only does when it has failed.
    ExecFailed(nix::errno::Errno),
}

/// Where a launch stands.
pub enum Phase {
    /// Nothing has been created yet. `argv` is the argument vector of the
    /// command to launch.
    Ready { argv: Seq<Seq<u8>> },
    /// This is the original context, and `child` has not been seen to
    /// terminate.
    Waiting { child: ChildHandle },
    /// This is the new context, about to become the command.
    Execing { argv: Seq<Seq<u8>> },
    /// The launch is over in this context.
    Done { result: Result<(), TracersError> },
}

/// The result of a launch that failed, with a failure of the given kind.
pub open spec fn failed(kind: ErrorKind) -> Result<(), TracersError> {
    Err(TracersError { kind })
}

impl Phase {
    /// The phase in which a launch of `args` begins: ready to create the
    /// child if the arguments can be encoded, over with an encoding failure
    /// if they cannot.
    pub open spec fn start(args: Seq<Seq<u8>>) -> Phase {
        if encodable(args) {
            Phase::Ready { argv: encoded(args) }
        } else {
            Phase::Done { result: failed(ErrorKind::EncodingFailure) }
        }
    }

    /// The phase that follows when `event` is reported in this one.
    ///
    /// An event that does not answer the action that is due changes
    /// nothing.
    pub open spec fn step(self, event: Event) -> Phase {
        match (self, event) {
            (Phase::Ready { argv }, Event::Forked(Ok(ForkOutcome::Original { child }))) => {
                Phase::Waiting { child }
            },
            (Phase::Ready { argv }, Event::Forked(Ok(ForkOutcome::New))) => {
                Phase::Execing { argv }
            },
            (Phase::Ready { argv }, Event::Forked(Err(_))) => {
                Phase::Done { result: failed(ErrorKind::OsFailure) }
            },
            (Phase::Waiting { child }, Event::Waited(Ok(outcome))) => {
                if outcome.is_terminal() {
                    Phase::Done { result: Ok(()) }
                } else {
                    self
                }
            },
            (Phase::Waiting { child }, Event::Waited(Err(_))) => {
                Phase::Done { result: failed(ErrorKind::OsFailure) }
            },
            (Phase::Execing { argv }, Event::ExecFailed(_)) => {
                Phase::Done { result: failed(ErrorKind::OsFailure) }
            },
            _ => self,
        }
    }

    /// The phase reached when `events` are reported one after the other.
    pub open spec fn run(self, events: Seq<Event>) -> Phase
        decreases events.len(),
    {
        if events.len() == 0 {
            self
        } else {
            self.step(events[0]).run(events.drop_first())
        }
    }
}

/// What the driver has to do next.
#[derive(Debug, PartialEq, Eq)]
pub enum Action<'a> {
    /// Create the new execution context.
    Fork,
    /// Block until `child` changes state.
    Wait { child: &'a ChildHandle },
    /// Replace the image of this context with `command`.
    Exec { command: &'a Command },
    /// Stop: the launch ended with `result`.
    Finish { result: Result<(), TracersError> },
}

impl<'a> Action<'a> {
    /// Whether this is the action due in `phase`.
    pub open spec fn due_in(self, phase: Phase) -> bool {
        match self {
            Action::Fork => phase is Ready,
            Action::Wait { child } => phase == (Phase::Waiting { child: *child }),
            Action::Exec { command } => phase == (Phase::Execing { argv: command@ }),
            Action::Finish { result } => phase == (Phase::Done { result }),
        }
    }
}

#[derive(Debug)]
enum State {
    Ready { command: Command },
    Waiting { child: ChildHandle },
    Execing { command: Command },
    Done { result: Result<(), TracersError> },
}

/// One launch of one command.
#[derive(Debug)]
pub struct Launcher {
    state: State,
}

impl View for Launcher {
    type V = Phase;

    closed spec fn view(&self) -> Phase {
        match self.state {
            State::Ready { command } => Phase::Ready { argv: command@ },
            State::Waiting { child } => Phase::Waiting { child },
            State::Execing { command } => Phase::Execing { argv: command@ },
            State::Done { result } => Phase::Done { result },
        }
    }
}

impl Launcher {
    /// Begins the launch of the command that `args` spell out: element 0 is
    /// the executable, and all of them are its arguments.
    ///
    /// The arguments are encoded here, before anything is created. If they
    /// cannot be, the launch is over at once, with an encoding failure.
    pub fn start(args: Vec<String>) -> (launcher: Launcher)
        ensures
            launcher@ == Phase::start(argument_bytes(args@)),
    {
        match Command::encode(args) {
            Ok(command) => Launcher { state: State::Ready { command } },
            Err(e) => Launcher { state: State::Done { result: Err(e) } },
        }
    }

    /// The action that is due.
    pub fn action(&self) -> (action: Action<'_>)
        ensures
            action.due_in(self@),
    {
        match &self.state {
            State::Ready { command } => Action::Fork,
            State::Waiting { child } => Action::Wait { child },
            State::Execing { command } => Action::Exec { command },
            State::Done { result } => Action::Finish { result: *result },
        }
    }

    /// Takes in what the driver reports and moves to the phase that
    /// follows.
    pub fn step(self, event: Event) -> (next: Launcher)
        ensures
            next@ == self@.step(event),
    {
        match self.state {
            State::Ready { command } => match event {
                Event::Forked(Ok(ForkOutcome::Original { child })) => Launcher {
                    state: State::Waiting { child },
                },
                Event::Forked(Ok(ForkOutcome::New)) => Launcher {
                    state: State::Execing { command },
                },
                Event::Forked(Err(cause)) => Launcher {
                    state: State::Done { result: Err(TracersError::from(cause)) },
                },
                _ => Launcher { state: State::Ready { command } },
            },
            State::Waiting { child } => match event {
                Event::Waited(Ok(outcome)) => {
                    if outcome.terminated() {
                        Launcher { state: State::Done { result: Ok(()) } }
                    } else {
                        Launcher { state: State::Waiting { child } }
                    }
                },
                Event::Waited(Err(cause)) => Launcher {
                    state: State::Done { result: Err(TracersError::from(cause)) },
                },
                _ => Launcher { state: State::Waiting { child } },
            },
            State::Execing { command } => match event {
                Event::ExecFailed(cause) => Launcher {
                    state: State::Done { result: Err(TracersError::from(cause)) },
                },
                _ => Launcher { state: State::Execing { command } },
            },
            State::Done { result } => Launcher { state: State::Done { result } },
        }
    }
}

/// Whether `event` reports that creation succeeded and that this is the
/// original context.
pub open spec fn reports_child(event: Event) -> bool {
    event matches Event::Forked(Ok(ForkOutcome::Original { .. }))
}

/// Whether `event` reports that the child has terminated.
pub open spec fn reports_termination(event: Event) -> bool {
    event matches Event::Waited(Ok(outcome)) && outcome.is_terminal()
}

/// Whether `events` hold a report of a child and, later, a report of a
/// termination.
pub open spec fn child_came_and_went(events: Seq<Event>) -> bool {
    exists|i: int, j: int|
        #![trigger events[i], events[j]]
        0 <= i < j < events.len() && reports_child(events[i]) && reports_termination(events[j])
}

/// A launch that is over stays over: whatever is reported afterwards, the
/// first result stands.
pub proof fn lemma_done_is_final(result: Result<(), TracersError>, events: Seq<Event>)
    ensures
        (Phase::Done { result }).run(events) == (Phase::Done { result }),
    decreases events.len(),
{
    if events.len() > 0 {
        lemma_done_is_final(result, events.drop_first());
    }
}

/// Arguments that can be encoded are launched: creation is the first action
/// due, the original context goes on to wait for the child it was given, and
/// the new context goes on to replace its image with exactly these
/// arguments, each followed by a zero byte.
pub proof fn lemma_encodable_arguments_are_launched(
    args: Seq<Seq<u8>>,
    child: ChildHandle,
    first: Action,
    in_original: Action,
    in_new: Action,
)
    requires
        encodable(args),
        first.due_in(Phase::start(args)),
        in_original.due_in(
            Phase::start(args).step(Event::Forked(Ok(ForkOutcome::Original { child }))),
        ),
        in_new.due_in(Phase::start(args).step(Event::Forked(Ok(ForkOutcome::New)))),
    ensures
        first is Fork,
        in_original matches Action::Wait { child: waited } && *waited == child,
        in_new matches Action::Exec { command } && command@ == encoded(args)
            && is_argument_vector(command@),
{
    lemma_encoded_is_argument_vector(args);
}

/// Arguments that cannot be encoded, because there are none or because one
/// of them holds a zero byte, create nothing: the launch is over before its
/// first action, with an encoding failure, and no report ever makes creation
/// due.
pub proof fn lemma_unencodable_arguments_create_nothing(
    args: Seq<Seq<u8>>,
    events: Seq<Event>,
    action: Action,
)
    requires
        !encodable(args),
        action.due_in(Phase::start(args).run(events)),
    ensures
        Phase::start(args) == (Phase::Done { result: failed(ErrorKind::EncodingFailure) }),
        action == (Action::Finish { result: failed(ErrorKind::EncodingFailure) }),
{
    lemma_done_is_final(failed(ErrorKind::EncodingFailure), events);
}

/// A failure of creation ends the launch at once, with a failure of the
/// operating system, and without a child to wait for.
pub proof fn lemma_failed_creation_ends_the_launch(
    argv: Seq<Seq<u8>>,
    cause: nix::errno::Errno,
    events: Seq<Event>,
)
    ensures
        (Phase::Ready { argv }).step(Event::Forked(Err(cause))).run(events) == (Phase::Done {
            result: failed(ErrorKind::OsFailure),
        }),
{
    lemma_done_is_final(failed(ErrorKind::OsFailure), events);
}

proof fn lemma_ready_is_not_reentered(phase: Phase, events: Seq<Event>)
    requires
        !(phase is Ready),
    ensures
        !(phase.run(events) is Ready),
    decreases events.len(),
{
    if events.len() > 0 {
        lemma_ready_is_not_reentered(phase.step(events[0]), events.drop_first());
    }
}

/// Creation happens once: whatever creation reports, the launch leaves the
/// phase in which creation is due, and no later report brings it back
/// there.
pub proof fn lemma_creation_happens_once(
    argv: Seq<Seq<u8>>,
    report: Result<ForkOutcome, nix::errno::Errno>,
    events: Seq<Event>,
)
    ensures
        !((Phase::Ready { argv }).step(Event::Forked(report)).run(events) is Ready),
{
    lemma_ready_is_not_reentered((Phase::Ready { argv }).step(Event::Forked(report)), events);
}

/// The two roles do not mix: the context that waits never goes on to
/// replace its image, and the context that replaces its image never waits.
pub proof fn lemma_roles_do_not_mix(phase: Phase, events: Seq<Event>)
    ensures
        phase is Waiting ==> !(phase.run(events) is Execing),
        phase is Execing ==> !(phase.run(events) is Waiting),
    decreases events.len(),
{
    if events.len() > 0 {
        let next = phase.step(events[0]);
        if next is Done {
            lemma_done_is_final(next->result, events.drop_first());
        } else {
            lemma_roles_do_not_mix(next, events.drop_first());
        }
    }
}

/// In the original context a launch of encodable arguments succeeds as soon
/// as the wait reports that the child has terminated, whichever child it is
/// and however it ended.
pub proof fn lemma_original_context_succeeds(
    args: Seq<Seq<u8>>,
    child: ChildHandle,
    outcome: WaitOutcome,
)
    requires
        encodable(args),
        outcome.is_terminal(),
    ensures
        Phase::start(args).step(Event::Forked(Ok(ForkOutcome::Original { child }))).step(
            Event::Waited(Ok(outcome)),
        ) == (Phase::Done { result: Ok(()) }),
{
}

proof fn lemma_run_two(phase: Phase, first: Event, second: Event)
    ensures
        phase.run(seq![first, second]) == phase.step(first).step(second),
{
    let both = seq![first, second];
    let rest = both.drop_first();
    assert(rest =~= seq![second]);
    assert(rest.drop_first() =~= Seq::<Event>::empty());
    assert(phase.run(both) == phase.step(first).run(rest));
    assert(phase.step(first).run(rest) == phase.step(first).step(second).run(rest.drop_first()));
}

/// Two launches of the same encodable arguments do not depend on each
/// other: each succeeds on the termination of its own child, whatever the
/// other child is and however either of them ended.
pub proof fn lemma_launches_are_independent(
    args: Seq<Seq<u8>>,
    one: ChildHandle,
    other: ChildHandle,
    one_ended: WaitOutcome,
    other_ended: WaitOutcome,
)
    requires
        encodable(args),
        one_ended.is_terminal(),
        other_ended.is_terminal(),
    ensures
        Phase::start(args).run(
            seq![Event::Forked(Ok(ForkOutcome::Original { child: one })), Event::Waited(Ok(one_ended))],
        ) == (Phase::Done { result: Ok(()) }),
        Phase::start(args).run(
            seq![
                Event::Forked(Ok(ForkOutcome::Original { child: other })),
                Event::Waited(Ok(other_ended)),
            ],
        ) == (Phase::Done { result: Ok(()) }),
{
    lemma_run_two(
        Phase::start(args),
        Event::Forked(Ok(ForkOutcome::Original { child: one })),
        Event::Waited(Ok(one_ended)),
    );
    lemma_run_two(
        Phase::start(args),
        Event::Forked(Ok(ForkOutcome::Original { child: other })),
        Event::Waited(Ok(other_ended)),
    );
}

/// One report while waiting: the wait is over exactly when the report says
/// that the child has terminated or that waiting has failed. Any other
/// report leaves the launch waiting for the same child.
pub proof fn lemma_wait_ends_with_the_child(child: ChildHandle, event: Event)
    ensures
        (Phase::Waiting { child }).step(event) == (Phase::Done { result: Ok(()) })
            <==> reports_termination(event),
        (Phase::Waiting { child }).step(event) == (Phase::Done {
            result: failed(ErrorKind::OsFailure),
        }) <==> event matches Event::Waited(Err(_)),
        !reports_termination(event) && !(event matches Event::Waited(Err(_))) ==> (Phase::Waiting {
            child,
        }).step(event) == (Phase::Waiting { child }),
{
}

/// The wait never returns before the child has terminated: if a launch that
/// is waiting ends in success, one of the reports it took in said that the
/// child has terminated.
pub proof fn lemma_success_follows_termination(child: ChildHandle, events: Seq<Event>)
    requires
        (Phase::Waiting { child }).run(events) == (Phase::Done { result: Ok(()) }),
    ensures
        exists|i: int| 0 <= i < events.len() && reports_termination(#[trigger] events[i]),
    decreases events.len(),
{
    let waiting = Phase::Waiting { child };
    if events.len() > 0 {
        let rest = events.drop_first();
        if reports_termination(events[0]) {
        } else if waiting.step(events[0]) == waiting {
            lemma_success_follows_termination(child, rest);
            let i = choose|i: int| 0 <= i < rest.len() && reports_termination(#[trigger] rest[i]);
            assert(reports_termination(events[i + 1]));
        } else {
            lemma_done_is_final(failed(ErrorKind::OsFailure), rest);
        }
    }
}

/// The new context never reports success: image replacement either takes
/// the context over for good or fails, so a launch that is replacing its
/// image stays there or ends with a failure of the operating system.
pub proof fn lemma_new_context_never_succeeds(argv: Seq<Seq<u8>>, events: Seq<Event>)
    ensures
        (Phase::Execing { argv }).run(events) == (Phase::Execing { argv }) || (Phase::Execing {
            argv,
        }).run(events) == (Phase::Done { result: failed(ErrorKind::OsFailure) }),
    decreases events.len(),
{
    if events.len() > 0 {
        if events[0] is ExecFailed {
            lemma_done_is_final(failed(ErrorKind::OsFailure), events.drop_first());
        } else {
            lemma_new_context_never_succeeds(argv, events.drop_first());
        }
    }
}

proof fn lemma_success_from_ready(argv: Seq<Seq<u8>>, events: Seq<Event>)
    requires
        (Phase::Ready { argv }).run(events) == (Phase::Done { result: Ok(()) }),
    ensures
        child_came_and_went(events),
    decreases events.len(),
{
    let ready = Phase::Ready { argv };
    let rest = events.drop_first();
    match ready.step(events[0]) {
        Phase::Ready { .. } => {
            lemma_success_from_ready(argv, rest);
            let (i, j) = choose|i: int, j: int|
                #![trigger rest[i], rest[j]]
                0 <= i < j < rest.len() && reports_child(rest[i]) && reports_termination(rest[j]);
            assert(reports_child(events[i + 1]) && reports_termination(events[j + 1]));
        },
        Phase::Waiting { child } => {
            lemma_success_follows_termination(child, rest);
            let j = choose|j: int| 0 <= j < rest.len() && reports_termination(#[trigger] rest[j]);
            assert(reports_child(events[0]) && reports_termination(events[j + 1]));
        },
        Phase::Execing { argv } => {
            lemma_new_context_never_succeeds(argv, rest);
        },
        Phase::Done { result } => {
            lemma_done_is_final(result, rest);
        },
    }
}

/// Success means that a child came and went: a launch ends in success only
/// if its arguments could be encoded, creation was reported to the original
/// context, and after that the wait reported that the child has terminated.
pub proof fn lemma_success_has_a_terminated_child(args: Seq<Seq<u8>>, events: Seq<Event>)
    requires
        Phase::start(args).run(events) == (Phase::Done { result: Ok(()) }),
    ensures
        encodable(args),
        child_came_and_went(events),
{
    if encodable(args) {
        lemma_success_from_ready(encoded(args), events);
    } else {
        lemma_done_is_final(failed(ErrorKind::EncodingFailure), events);
    }
}

} // verus!
