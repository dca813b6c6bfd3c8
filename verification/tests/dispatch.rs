use compose_driver::dispatch::{
    docker_compose_unsupported, fallback, mentions_cli_mismatch, primary, should_fall_back,
    Dispatch, DispatchStep,
};
use compose_driver::error::CommandError;
use compose_driver::invocation::{Arg, Invocation, Program};
use compose_driver::path::FsPath;
use compose_driver::runner::ProcessOutcome;

fn path(names: &[&str]) -> FsPath {
    FsPath { root: "/".to_string(), names: names.iter().map(|n| n.to_string()).collect() }
}

fn config() -> FsPath {
    path(&["repo", "infra", "docker-compose.yml"])
}

fn text(s: &str) -> Arg {
    Arg::Text(s.to_string())
}

fn failed(code: i32, stderr: &str) -> ProcessOutcome {
    ProcessOutcome::Exited { code: Some(code), stdout: Vec::new(), stderr: stderr.as_bytes().to_vec() }
}

fn succeeded(stdout: &str) -> ProcessOutcome {
    ProcessOutcome::Exited { code: Some(0), stdout: stdout.as_bytes().to_vec(), stderr: Vec::new() }
}

fn not_started() -> ProcessOutcome {
    ProcessOutcome::NotStarted { cause: "program not found".to_string() }
}

/// Runs a whole command against made-up outcomes, one per attempt, and
/// returns the result with the calls that were made.
fn dispatch(
    args: &[&str],
    mut outcomes: Vec<ProcessOutcome>,
) -> (Result<String, CommandError>, Vec<Invocation>) {
    let args: Vec<String> = args.iter().map(|a| a.to_string()).collect();
    let (mut state, mut call) = Dispatch::begin(config(), args).unwrap();
    let mut calls = Vec::new();
    outcomes.reverse();
    loop {
        calls.push(call);
        let outcome = outcomes.pop().expect("more attempts than outcomes");
        match state.resume(outcome) {
            DispatchStep::Run(next, next_call) => {
                state = next;
                call = next_call;
            }
            DispatchStep::Done(result) => return (result, calls),
        }
    }
}

#[test]
fn dispatcher_returns_the_output_of_a_successful_first_attempt() {
    let (result, calls) = dispatch(&["ps"], vec![succeeded("NAME  STATUS\n")]);
    assert_eq!(result.unwrap(), "NAME  STATUS");
    assert_eq!(calls.len(), 1);
    assert_eq!(
        calls[0],
        Invocation {
            program: Program::Docker,
            dir: Some(path(&["repo", "infra"])),
            args: vec![text("compose"), text("-f"), Arg::File(config()), text("ps")],
        }
    );
}

#[test]
fn dispatcher_retries_once_on_unknown_command_in_any_case() {
    let (result, calls) = dispatch(
        &["up", "-d"],
        vec![failed(1, "docker: Unknown Command \"compose\""), succeeded("started")],
    );
    assert_eq!(result.unwrap(), "started");
    assert_eq!(calls.len(), 2);
    assert_eq!(
        calls[1],
        Invocation {
            program: Program::DockerCompose,
            dir: Some(path(&["repo", "infra"])),
            args: vec![text("-f"), Arg::File(config()), text("up"), text("-d")],
        }
    );
}

#[test]
fn dispatcher_does_not_retry_an_ordinary_failure() {
    let (result, calls) = dispatch(&["up"], vec![failed(1, "container X exited with code 137")]);
    assert_eq!(calls.len(), 1);
    assert_eq!(
        result.unwrap_err().message(),
        "Command failed (exit 1)\ncontainer X exited with code 137"
    );
}

#[test]
fn dispatcher_does_not_retry_when_a_container_failed_to_start() {
    let (result, calls) = dispatch(&["up"], vec![failed(1, "a container failed to start")]);
    assert_eq!(calls.len(), 1);
    assert_eq!(
        result.unwrap_err().message(),
        "Command failed (exit 1)\na container failed to start"
    );
}

#[test]
fn dispatcher_retries_when_docker_cannot_be_started() {
    let (result, calls) = dispatch(&["down"], vec![not_started(), succeeded("stopped\n")]);
    assert_eq!(result.unwrap(), "stopped");
    assert_eq!(calls.len(), 2);
    assert_eq!(calls[0].program.name(), "docker");
    assert_eq!(calls[1].program.name(), "docker-compose");
}

#[test]
fn dispatcher_reports_the_failure_of_the_second_attempt() {
    let (result, calls) = dispatch(
        &["ps"],
        vec![failed(125, "unknown shorthand flag: 'f' in -f"), failed(2, "no such service")],
    );
    assert_eq!(calls.len(), 2);
    assert_eq!(result.unwrap_err().message(), "Command failed (exit 2)\nno such service");
}

#[test]
fn dispatcher_never_makes_a_third_attempt() {
    let (result, calls) = dispatch(
        &["ps"],
        vec![failed(1, "unknown command"), failed(1, "unknown command")],
    );
    assert_eq!(calls.len(), 2);
    assert_eq!(result.unwrap_err().message(), "Command failed (exit 1)\nunknown command");

    let (result, calls) = dispatch(&["ps"], vec![not_started(), not_started()]);
    assert_eq!(calls.len(), 2);
    assert_eq!(result.unwrap_err().message(), "Command failed to start: program not found");
}

#[test]
fn dispatcher_rejects_a_compose_file_without_a_parent() {
    let error = Dispatch::begin(path(&[]), vec!["ps".to_string()]).unwrap_err();
    assert!(matches!(error, CommandError::InvalidPath));
    assert_eq!(error.message(), "Invalid compose file path");
}

#[test]
fn dispatcher_runs_in_the_root_for_a_compose_file_there() {
    let (state, call) = Dispatch::begin(path(&["docker-compose.yml"]), Vec::new()).unwrap();
    assert!(!state.retried);
    assert_eq!(call.dir, Some(path(&[])));
}

#[test]
fn unsupported_is_recognised_by_each_phrase_in_any_case() {
    assert!(docker_compose_unsupported("docker: 'compose' is not a docker command."));
    assert!(docker_compose_unsupported("Unknown Command"));
    assert!(docker_compose_unsupported("UNKNOWN SHORTHAND FLAG: 'f' in -f"));
    assert!(docker_compose_unsupported("unknown flag: --no-build"));
    assert!(docker_compose_unsupported("Command failed (exit 1)\nUnknown flag: --No-Build"));
}

#[test]
fn unsupported_is_not_seen_in_other_failures() {
    assert!(!docker_compose_unsupported(""));
    assert!(!docker_compose_unsupported("container X exited with code 137"));
    assert!(!docker_compose_unsupported("unknown flag: --build"));
    assert!(!docker_compose_unsupported("Command failed (exit unknown)\ncommand"));
}

#[test]
fn mismatch_phrases_are_matched_in_lowercase_only() {
    assert!(mentions_cli_mismatch("error: unknown command"));
    assert!(!mentions_cli_mismatch("error: Unknown Command"));
    assert!(!mentions_cli_mismatch("unknown  command"));
}

#[test]
fn fallback_is_decided_by_the_kind_of_failure() {
    assert!(should_fall_back(&CommandError::Start { cause: String::new() }));
    assert!(should_fall_back(&CommandError::Exit {
        code: Some(1),
        output: "Unknown Command".to_string()
    }));
    assert!(!should_fall_back(&CommandError::Exit {
        code: Some(1),
        output: "failed to start".to_string()
    }));
    assert!(!should_fall_back(&CommandError::NotFound));
    assert!(!should_fall_back(&CommandError::InvalidPath));
    assert!(!should_fall_back(&CommandError::Io { cause: "unknown command".to_string() }));
}

#[test]
fn attempts_carry_the_arguments_in_order() {
    let args = vec!["up".to_string(), "-d".to_string(), "--remove-orphans".to_string()];
    let first = primary(&config(), &args);
    assert_eq!(
        first.args,
        vec![
            text("compose"),
            text("-f"),
            Arg::File(config()),
            text("up"),
            text("-d"),
            text("--remove-orphans")
        ]
    );
    let second = fallback(&config(), &args);
    assert_eq!(
        second.args,
        vec![text("-f"), Arg::File(config()), text("up"), text("-d"), text("--remove-orphans")]
    );
    assert_eq!(first.dir, second.dir);
}
