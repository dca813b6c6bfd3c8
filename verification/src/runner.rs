//! What a finished, or never started, command amounts to.

use crate::error::{result_view, CommandError, ErrorView};
use crate::output::{format_output, lossy_text, normalized};
use vstd::prelude::*;

verus! {

/// What came of running a program once.
#[derive(Debug)]
pub enum ProcessOutcome {
    /// The program could not be started; `cause` is the platform's message.
    NotStarted { cause: String },
    /// The program ran to its end. `code` is its exit code, absent where the
    /// process ended without one.
    Exited { code: Option<i32>, stdout: Vec<u8>, stderr: Vec<u8> },
}

/// A `ProcessOutcome` as a mathematical value.
pub enum OutcomeView {
    NotStarted { cause: Seq<char> },
    Exited { code: Option<int>, stdout: Seq<u8>, stderr: Seq<u8> },
}

impl View for ProcessOutcome {
    type V = OutcomeView;

    open spec fn view(&self) -> OutcomeView {
        match self {
            ProcessOutcome::NotStarted { cause } => OutcomeView::NotStarted { cause: cause@ },
            ProcessOutcome::Exited { code, stdout, stderr } => OutcomeView::Exited {
                code: match code {
                    Some(c) => Some(*c as int),
                    None => None,
                },
                stdout: stdout@,
                stderr: stderr@,
            },
        }
    }
}

/// The verdict on a program that exited with `code` and whose output was
/// rendered as `rendered`: success on exit code zero alone.
pub open spec fn exit_verdict(code: Option<int>, rendered: Seq<char>) -> Result<
    Seq<char>,
    ErrorView,
> {
    if code == Some(0int) {
        Ok(rendered)
    } else {
        Err(ErrorView::Exit { code, output: rendered })
    }
}

/// The verdict on one run of a program.
pub open spec fn checked(outcome: OutcomeView) -> Result<Seq<char>, ErrorView> {
    match outcome {
        OutcomeView::NotStarted { cause } => Err(ErrorView::Start { cause }),
        OutcomeView::Exited { code, stdout, stderr } => exit_verdict(
            code,
            normalized(lossy_text(stdout), lossy_text(stderr)),
        ),
    }
}

/// Classifies a program that ran to its end by its exit code: the rendered
/// output on code zero, an exit failure that carries the code and the output
/// otherwise.
pub fn check_exit(code: Option<i32>, rendered: String) -> (r: Result<String, CommandError>)
    ensures
        result_view(r) == exit_verdict(
            match code {
                Some(c) => Some(c as int),
                None => None,
            },
            rendered@,
        ),
{
    match code {
        Some(0) => Ok(rendered),
        _ => Err(CommandError::Exit { code, output: rendered }),
    }
}

/// Turns the outcome of one run into the rendered output or the failure.
pub fn run_checked(outcome: ProcessOutcome) -> (r: Result<String, CommandError>)
    ensures
        result_view(r) == checked(outcome@),
{
    match outcome {
        ProcessOutcome::NotStarted { cause } => Err(CommandError::Start { cause }),
        ProcessOutcome::Exited { code, stdout, stderr } => {
            let rendered = format_output(stdout.as_slice(), stderr.as_slice());
            check_exit(code, rendered)
        },
    }
}

} // verus!
