use nix::errno::Errno;
use nix::unistd::Pid;
use tracers::error::{ErrorKind, TracersError};
use tracers::launcher::{Action, Event, Launcher};
use tracers::process::{ChildHandle, ForkOutcome, WaitOutcome};

fn words(list: &[&str]) -> Vec<String> {
    list.iter().map(|word| word.to_string()).collect()
}

fn child(pid: i32) -> ChildHandle {
    ChildHandle { pid: Pid::from_raw(pid) }
}

fn forked_original(pid: i32) -> Event {
    Event::Forked(Ok(ForkOutcome::Original { child: child(pid) }))
}

fn forked_new() -> Event {
    Event::Forked(Ok(ForkOutcome::New))
}

/// Plays the operating system for one context: answers every action from
/// the script, and counts how many contexts it was asked to create.
fn drive(launcher: Launcher, script: Vec<Event>) -> (Result<(), TracersError>, usize) {
    let mut launcher = launcher;
    let mut created: usize = 0;
    let mut script = script.into_iter();
    loop {
        match launcher.action() {
            Action::Finish { result } => return (result, created),
            Action::Fork => created += 1,
            Action::Wait { .. } | Action::Exec { .. } => {}
        }
        match script.next() {
            Some(event) => launcher = launcher.step(event),
            None => panic!("the launcher asks for more than the script holds"),
        }
    }
}

#[test]
fn no_op_command_ends_without_failure() {
    let launcher = Launcher::start(words(&["true"]));
    assert_eq!(launcher.action(), Action::Fork);
    let launcher = launcher.step(forked_original(4242));
    assert_eq!(launcher.action(), Action::Wait { child: &child(4242) });
    let launcher = launcher.step(Event::Waited(Ok(WaitOutcome::Exited)));
    assert_eq!(launcher.action(), Action::Finish { result: Ok(()) });
}

#[test]
fn new_context_is_asked_to_become_the_command() {
    let launcher = Launcher::start(words(&["sleep", "0"])).step(forked_new());
    match launcher.action() {
        Action::Exec { command } => {
            assert_eq!(command.file(), &b"sleep\0".to_vec());
            assert_eq!(command.argv(), &vec![b"sleep\0".to_vec(), b"0\0".to_vec()]);
        }
        other => panic!("expected image replacement, got {:?}", other),
    }
}

#[test]
fn missing_executable_fails_in_the_new_context_only() {
    let args = words(&["/definitely/not/a/real/path"]);

    let in_new = Launcher::start(args.clone()).step(forked_new());
    match in_new.action() {
        Action::Exec { command } => {
            assert_eq!(command.file(), &b"/definitely/not/a/real/path\0".to_vec())
        }
        other => panic!("expected image replacement, got {:?}", other),
    }
    let in_new = in_new.step(Event::ExecFailed(Errno::ENOENT));
    match in_new.action() {
        Action::Finish { result: Err(failure) } => {
            assert_eq!(failure.kind, ErrorKind::OsFailure);
            assert_eq!(failure.diagnostic(), "An error occurred: TracersError");
        }
        other => panic!("expected a failure, got {:?}", other),
    }

    let in_original = Launcher::start(args)
        .step(forked_original(77))
        .step(Event::Waited(Ok(WaitOutcome::Exited)));
    assert_eq!(in_original.action(), Action::Finish { result: Ok(()) });
}

#[test]
fn zero_byte_fails_before_anything_is_created() {
    let launcher = Launcher::start(words(&["echo", "a\0b"]));
    assert_eq!(
        launcher.action(),
        Action::Finish { result: Err(TracersError::encoding_failure()) }
    );
    let (result, created) = drive(launcher, Vec::new());
    assert_eq!(result.unwrap_err().kind, ErrorKind::EncodingFailure);
    assert_eq!(created, 0);
}

#[test]
fn empty_argument_list_fails_before_anything_is_created() {
    let (result, created) = drive(Launcher::start(Vec::new()), Vec::new());
    assert_eq!(result, Err(TracersError::encoding_failure()));
    assert_eq!(created, 0);
}

#[test]
fn valid_arguments_create_exactly_one_context() {
    let script = vec![forked_original(10), Event::Waited(Ok(WaitOutcome::Exited))];
    let (result, created) = drive(Launcher::start(words(&["true"])), script);
    assert_eq!(result, Ok(()));
    assert_eq!(created, 1);

    let script = vec![forked_new(), Event::ExecFailed(Errno::EACCES)];
    let (result, created) = drive(Launcher::start(words(&["true"])), script);
    assert_eq!(result, Err(TracersError::os_failure()));
    assert_eq!(created, 1);
}

#[test]
fn two_launches_of_the_same_command_do_not_touch_each_other() {
    let first = Launcher::start(words(&["true"]));
    let second = Launcher::start(words(&["true"]));

    let first = first.step(forked_original(100));
    let second = second.step(forked_original(200));
    assert_eq!(first.action(), Action::Wait { child: &child(100) });
    assert_eq!(second.action(), Action::Wait { child: &child(200) });

    let second = second.step(Event::Waited(Ok(WaitOutcome::Signaled)));
    assert_eq!(second.action(), Action::Finish { result: Ok(()) });
    assert_eq!(first.action(), Action::Wait { child: &child(100) });

    let first = first.step(Event::Waited(Ok(WaitOutcome::Exited)));
    assert_eq!(first.action(), Action::Finish { result: Ok(()) });
    assert_eq!(second.action(), Action::Finish { result: Ok(()) });
}

#[test]
fn two_launches_succeed_in_either_order() {
    let script = |pid: i32| vec![forked_original(pid), Event::Waited(Ok(WaitOutcome::Exited))];
    let (one, _) = drive(Launcher::start(words(&["true"])), script(1));
    let (other, _) = drive(Launcher::start(words(&["true"])), script(2));
    assert_eq!((one, other), (Ok(()), Ok(())));
    let (other, _) = drive(Launcher::start(words(&["true"])), script(2));
    let (one, _) = drive(Launcher::start(words(&["true"])), script(1));
    assert_eq!((one, other), (Ok(()), Ok(())));
}

#[test]
fn wait_goes_on_until_the_child_has_terminated() {
    let mut launcher = Launcher::start(words(&["sleep", "0"])).step(forked_original(31));
    for report in [WaitOutcome::StillAlive, WaitOutcome::Stopped, WaitOutcome::Continued] {
        launcher = launcher.step(Event::Waited(Ok(report)));
        assert_eq!(launcher.action(), Action::Wait { child: &child(31) });
    }
    launcher = launcher.step(Event::Waited(Ok(WaitOutcome::Exited)));
    assert_eq!(launcher.action(), Action::Finish { result: Ok(()) });
}

#[test]
fn death_by_signal_ends_the_wait_with_success() {
    let launcher = Launcher::start(words(&["sleep", "100"]))
        .step(forked_original(5))
        .step(Event::Waited(Ok(WaitOutcome::Signaled)));
    assert_eq!(launcher.action(), Action::Finish { result: Ok(()) });
}

#[test]
fn only_exit_and_signal_are_terminal() {
    assert!(WaitOutcome::Exited.terminated());
    assert!(WaitOutcome::Signaled.terminated());
    assert!(!WaitOutcome::Stopped.terminated());
    assert!(!WaitOutcome::Continued.terminated());
    assert!(!WaitOutcome::StillAlive.terminated());
}

#[test]
fn failed_creation_is_an_os_failure_without_a_child() {
    let launcher = Launcher::start(words(&["true"])).step(Event::Forked(Err(Errno::EAGAIN)));
    assert_eq!(
        launcher.action(),
        Action::Finish { result: Err(TracersError::os_failure()) }
    );
}

#[test]
fn failed_wait_is_an_os_failure() {
    let launcher = Launcher::start(words(&["true"]))
        .step(forked_original(9))
        .step(Event::Waited(Err(Errno::ECHILD)));
    assert_eq!(
        launcher.action(),
        Action::Finish { result: Err(TracersError::os_failure()) }
    );
}

#[test]
fn reports_that_answer_nothing_are_ignored() {
    let launcher = Launcher::start(words(&["true"]));
    let launcher = launcher.step(Event::Waited(Ok(WaitOutcome::Exited)));
    assert_eq!(launcher.action(), Action::Fork);
    let launcher = launcher.step(Event::ExecFailed(Errno::ENOENT));
    assert_eq!(launcher.action(), Action::Fork);

    let waiting = launcher.step(forked_original(3));
    let waiting = waiting.step(forked_original(4));
    assert_eq!(waiting.action(), Action::Wait { child: &child(3) });
    let waiting = waiting.step(Event::ExecFailed(Errno::ENOENT));
    assert_eq!(waiting.action(), Action::Wait { child: &child(3) });

    let execing = Launcher::start(words(&["true"])).step(forked_new());
    let execing = execing.step(Event::Waited(Ok(WaitOutcome::Exited)));
    assert!(matches!(execing.action(), Action::Exec { .. }));
    let execing = execing.step(forked_new());
    assert!(matches!(execing.action(), Action::Exec { .. }));
}

#[test]
fn first_result_stands() {
    let done = Launcher::start(words(&["true"]))
        .step(forked_original(8))
        .step(Event::Waited(Ok(WaitOutcome::Exited)));
    let done = done
        .step(Event::Waited(Err(Errno::ECHILD)))
        .step(Event::Forked(Err(Errno::EAGAIN)))
        .step(Event::ExecFailed(Errno::ENOENT));
    assert_eq!(done.action(), Action::Finish { result: Ok(()) });

    let failed = Launcher::start(words(&["a\0"]))
        .step(forked_original(8))
        .step(Event::Waited(Ok(WaitOutcome::Exited)));
    assert_eq!(
        failed.action(),
        Action::Finish { result: Err(TracersError::encoding_failure()) }
    );
}
