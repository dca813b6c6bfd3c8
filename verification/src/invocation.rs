//! The description of one call of an external program.

use crate::path::{FsPath, PathView};
use vstd::prelude::*;

verus! {

/// The two command-line tools that can drive the stack.
#[derive(Clone, Copy, Debug, PartialEq, Eq, Structural)]
pub enum Program {
    /// `docker`, whose `compose` subcommand is the current tool.
    Docker,
    /// `docker-compose`, the standalone tool of older installations.
    DockerCompose,
}

impl Program {
    /// The name under which the program is started.
    pub open spec fn name_text(self) -> Seq<char> {
        match self {
            Program::Docker => "docker"@,
            Program::DockerCompose => "docker-compose"@,
        }
    }

    /// The name under which the program is started.
    pub fn name(&self) -> (name: &'static str)
        ensures
            name@ == self.name_text(),
    {
        match self {
            Program::Docker => "docker",
            Program::DockerCompose => "docker-compose",
        }
    }
}

/// One argument of a call: a text, or a path that the caller hands to the
/// program in the platform's own form.
#[derive(Debug, PartialEq, Eq)]
pub enum Arg {
    Text(String),
    File(FsPath),
}

/// An `Arg` as a mathematical value.
pub enum ArgView {
    Text(Seq<char>),
    File(PathView),
}

impl View for Arg {
    type V = ArgView;

    open spec fn view(&self) -> ArgView {
        match self {
            Arg::Text(text) => ArgView::Text(text@),
            Arg::File(path) => ArgView::File(path@),
        }
    }
}

/// A call of an external program: which one, in which working directory
/// (`None`: the caller's own), and with which arguments, in order.
#[derive(Debug, PartialEq, Eq)]
pub struct Invocation {
    pub program: Program,
    pub dir: Option<FsPath>,
    pub args: Vec<Arg>,
}

/// An `Invocation` as a mathematical value.
pub struct InvocationView {
    pub program: Program,
    pub dir: Option<PathView>,
    pub args: Seq<ArgView>,
}

/// The values of a list of arguments.
pub open spec fn arg_views(args: Seq<Arg>) -> Seq<ArgView> {
    Seq::new(args.len(), |i: int| args[i]@)
}

/// A list of texts as arguments.
pub open spec fn text_args(args: Seq<Seq<char>>) -> Seq<ArgView> {
    Seq::new(args.len(), |i: int| ArgView::Text(args[i]))
}

impl View for Invocation {
    type V = InvocationView;

    open spec fn view(&self) -> InvocationView {
        InvocationView {
            program: self.program,
            dir: match self.dir {
                Some(dir) => Some(dir@),
                None => None,
            },
            args: arg_views(self.args@),
        }
    }
}

} // verus!
