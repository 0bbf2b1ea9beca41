use tracers::cli::{arguments, report};
use tracers::error::TracersError;
use tracers::launcher::{Action, Launcher};

fn line(words: &[&str]) -> Vec<String> {
    words.iter().map(|word| word.to_string()).collect()
}

#[test]
fn program_name_is_not_an_argument() {
    assert_eq!(arguments(line(&["tracers", "sleep", "0"])), line(&["sleep", "0"]));
    assert_eq!(arguments(line(&["tracers", "true"])), line(&["true"]));
}

#[test]
fn words_that_look_like_flags_belong_to_the_command() {
    assert_eq!(
        arguments(line(&["tracers", "--help", "-v", "--"])),
        line(&["--help", "-v", "--"])
    );
}

#[test]
fn command_line_without_a_command_gives_no_arguments() {
    assert_eq!(arguments(line(&["tracers"])), Vec::<String>::new());
    assert_eq!(arguments(Vec::new()), Vec::<String>::new());
}

#[test]
fn bare_program_name_ends_in_an_encoding_failure() {
    let launcher = Launcher::start(arguments(line(&["tracers"])));
    assert_eq!(
        launcher.action(),
        Action::Finish { result: Err(TracersError::encoding_failure()) }
    );
}

#[test]
fn success_prints_nothing() {
    assert_eq!(report(Ok(())), None);
}

#[test]
fn every_failure_prints_the_same_line() {
    let expected = Some("An error occurred: TracersError".to_string());
    assert_eq!(report(Err(TracersError::os_failure())), expected);
    assert_eq!(report(Err(TracersError::encoding_failure())), expected);
}
