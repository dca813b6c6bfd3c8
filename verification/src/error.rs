//! The failures that an action can end in, and the message of each.

use crate::text::{decimal, decimal_text};
use vstd::prelude::*;

verus! {

/// Why an action failed.
#[derive(Debug)]
pub enum CommandError {
    /// No ancestor of the working directory holds the compose file.
    NotFound,
    /// The working directory could not be read.
    Io { cause: String },
    /// The compose file's path has no parent directory.
    InvalidPath,
    /// The program could not be started.
    Start { cause: String },
    /// The program ran and did not exit with code zero.
    Exit { code: Option<i32>, output: String },
}

/// A `CommandError` as a mathematical value.
pub enum ErrorView {
    NotFound,
    Io { cause: Seq<char> },
    InvalidPath,
    Start { cause: Seq<char> },
    Exit { code: Option<int>, output: Seq<char> },
}

/// How an exit code is written in a message: in decimal, or `unknown` where
/// the process ended without one.
pub open spec fn code_text(code: Option<int>) -> Seq<char> {
    match code {
        Some(c) => decimal(c),
        None => "unknown"@,
    }
}

impl ErrorView {
    /// The text shown to the user for this failure.
    pub open spec fn message(self) -> Seq<char> {
        match self {
            ErrorView::NotFound => {
                "could not locate the configuration file; run from inside the project checkout"@
            },
            ErrorView::Io { cause } => "Unable to read current dir: "@ + cause,
            ErrorView::InvalidPath => "Invalid compose file path"@,
            ErrorView::Start { cause } => "Command failed to start: "@ + cause,
            ErrorView::Exit { code, output } => "Command failed (exit "@ + code_text(code) + ")\n"@
                + output,
        }
    }
}

impl View for CommandError {
    type V = ErrorView;

    open spec fn view(&self) -> ErrorView {
        match self {
            CommandError::NotFound => ErrorView::NotFound,
            CommandError::Io { cause } => ErrorView::Io { cause: cause@ },
            CommandError::InvalidPath => ErrorView::InvalidPath,
            CommandError::Start { cause } => ErrorView::Start { cause: cause@ },
            CommandError::Exit { code, output } => ErrorView::Exit {
                code: match code {
                    Some(c) => Some(*c as int),
                    None => None,
                },
                output: output@,
            },
        }
    }
}

/// The outcome of an action as a mathematical value.
pub open spec fn result_view(r: Result<String, CommandError>) -> Result<Seq<char>, ErrorView> {
    match r {
        Ok(text) => Ok(text@),
        Err(e) => Err(e@),
    }
}

impl CommandError {
    /// The text shown to the user for this failure.
    pub fn message(&self) -> (m: String)
        ensures
            m@ == self@.message(),
    {
        match self {
            CommandError::NotFound => String::from_str(
                "could not locate the configuration file; run from inside the project checkout",
            ),
            CommandError::Io { cause } => {
                let mut m = String::from_str("Unable to read current dir: ");
                m.append(cause.as_str());
                m
            },
            CommandError::InvalidPath => String::from_str("Invalid compose file path"),
            CommandError::Start { cause } => {
                let mut m = String::from_str("Command failed to start: ");
                m.append(cause.as_str());
                m
            },
            CommandError::Exit { code, output } => {
                let mut m = String::from_str("Command failed (exit ");
                match code {
                    Some(c) => {
                        let digits = decimal_text(*c);
                        m.append(digits.as_str());
                    },
                    None => {
                        m.append("unknown");
                    },
                }
                m.append(")\n");
                m.append(output.as_str());
                m
            },
        }
    }
}

} // verus!
