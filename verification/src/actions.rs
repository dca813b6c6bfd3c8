//! The actions offered to a user interface, as the calls they make.

use crate::invocation::{arg_views, Arg, ArgView, Invocation, InvocationView, Program};
use crate::path::texts;
use vstd::prelude::*;

verus! {

/// Whether `up` builds the images first: yes, unless the caller said no.
pub open spec fn builds(build: Option<bool>) -> bool {
    build != Some(false)
}

/// The compose arguments that start the stack.
pub open spec fn up_args(build: Option<bool>) -> Seq<Seq<char>> {
    seq![
        "up"@,
        "-d"@,
        "--remove-orphans"@,
        if builds(build) {
            "--build"@
        } else {
            "--no-build"@
        },
    ]
}

/// The call that asks `docker` for its version, in the caller's own
/// working directory.
pub open spec fn version_invocation() -> InvocationView {
    InvocationView {
        program: Program::Docker,
        dir: None,
        args: seq![ArgView::Text("--version"@)],
    }
}

/// The call of the version check: `docker --version`.
pub fn docker_version() -> (call: Invocation)
    ensures
        call@ == version_invocation(),
{
    let mut args: Vec<Arg> = Vec::new();
    args.push(Arg::Text(String::from_str("--version")));
    assert(arg_views(args@) =~= seq![ArgView::Text("--version"@)]);
    Invocation { program: Program::Docker, dir: None, args }
}

/// The compose arguments of the status list: `ps`.
pub fn compose_ps() -> (args: Vec<String>)
    ensures
        texts(args@) == seq!["ps"@],
{
    let mut args: Vec<String> = Vec::new();
    args.push(String::from_str("ps"));
    assert(texts(args@) =~= seq!["ps"@]);
    args
}

/// The compose arguments that start the stack: `up -d --remove-orphans`,
/// then `--build`, or `--no-build` where `build` is `Some(false)`. Exactly
/// one of the two flags is among them.
pub fn compose_up(build: Option<bool>) -> (args: Vec<String>)
    ensures
        texts(args@) == up_args(build),
        texts(args@).contains("--build"@) <==> builds(build),
        texts(args@).contains("--no-build"@) <==> !builds(build),
{
    let mut args: Vec<String> = Vec::new();
    args.push(String::from_str("up"));
    args.push(String::from_str("-d"));
    args.push(String::from_str("--remove-orphans"));
    let with_build = match build {
        Some(b) => b,
        None => true,
    };
    if with_build {
        args.push(String::from_str("--build"));
    } else {
        args.push(String::from_str("--no-build"));
    }
    proof {
        let list = texts(args@);
        assert(list =~= up_args(build));
        reveal_strlit("up");
        reveal_strlit("-d");
        reveal_strlit("--remove-orphans");
        reveal_strlit("--build");
        reveal_strlit("--no-build");
        assert(list.len() == 4);
        assert(list[0].len() == 2 && list[1].len() == 2 && list[2].len() == 16);
        assert("--build"@.len() == 7 && "--no-build"@.len() == 10);
        assert(list[3] == if builds(build) {
            "--build"@
        } else {
            "--no-build"@
        });
    }
    args
}

/// The compose arguments that stop the stack: `down`.
pub fn compose_down() -> (args: Vec<String>)
    ensures
        texts(args@) == seq!["down"@],
{
    let mut args: Vec<String> = Vec::new();
    args.push(String::from_str("down"));
    assert(texts(args@) =~= seq!["down"@]);
    args
}

} // verus!
