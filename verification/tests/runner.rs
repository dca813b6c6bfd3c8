use compose_driver::error::CommandError;
use compose_driver::runner::{check_exit, run_checked, ProcessOutcome};

fn exited(code: Option<i32>, stdout: &[u8], stderr: &[u8]) -> ProcessOutcome {
    ProcessOutcome::Exited { code, stdout: stdout.to_vec(), stderr: stderr.to_vec() }
}

#[test]
fn runner_exit_zero_is_success_with_the_rendered_output() {
    let result = run_checked(exited(Some(0), b"up to date\n", b"warning"));
    assert_eq!(result.unwrap(), "up to date\nwarning");
}

#[test]
fn runner_exit_zero_with_no_output_is_success_with_empty_text() {
    let result = run_checked(exited(Some(0), b"", b""));
    assert_eq!(result.unwrap(), "");
}

#[test]
fn runner_exit_one_is_a_failure_with_the_exact_message() {
    let result = run_checked(exited(Some(1), b"out\n", b"err\n"));
    let error = result.unwrap_err();
    assert_eq!(error.message(), "Command failed (exit 1)\nout\nerr");
    match error {
        CommandError::Exit { code, output } => {
            assert_eq!(code, Some(1));
            assert_eq!(output, "out\nerr");
        }
        other => panic!("unexpected error: {:?}", other),
    }
}

#[test]
fn runner_exit_without_a_code_is_reported_as_unknown() {
    let error = run_checked(exited(None, b"", b"killed")).unwrap_err();
    assert_eq!(error.message(), "Command failed (exit unknown)\nkilled");
}

#[test]
fn runner_negative_exit_code_is_a_failure() {
    let error = run_checked(exited(Some(-2), b"", b"")).unwrap_err();
    assert_eq!(error.message(), "Command failed (exit -2)\n");
}

#[test]
fn runner_program_that_did_not_start_is_a_start_failure() {
    let outcome = ProcessOutcome::NotStarted { cause: "No such file or directory".to_string() };
    let error = run_checked(outcome).unwrap_err();
    assert!(matches!(error, CommandError::Start { .. }));
    assert_eq!(error.message(), "Command failed to start: No such file or directory");
}

#[test]
fn check_exit_succeeds_on_zero_alone() {
    assert_eq!(check_exit(Some(0), "fine".to_string()).unwrap(), "fine");
    assert!(check_exit(Some(2), "fine".to_string()).is_err());
    assert!(check_exit(None, "fine".to_string()).is_err());
}

#[test]
fn messages_of_the_other_failures() {
    assert_eq!(
        CommandError::NotFound.message(),
        "could not locate the configuration file; run from inside the project checkout"
    );
    assert_eq!(
        CommandError::Io { cause: "permission denied".to_string() }.message(),
        "Unable to read current dir: permission denied"
    );
    assert_eq!(CommandError::InvalidPath.message(), "Invalid compose file path");
    assert_eq!(
        CommandError::Exit { code: Some(137), output: String::new() }.message(),
        "Command failed (exit 137)\n"
    );
}
