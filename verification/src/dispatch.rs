//! Running a compose command: first through `docker compose`, then, where
//! that tool is missing or does not know the command, once through
//! `docker-compose`.

use crate::error::{CommandError, ErrorView};
use crate::invocation::{arg_views, text_args, Arg, ArgView, Invocation, InvocationView, Program};
use crate::path::{texts, FsPath, PathView};
use crate::runner::{checked, run_checked, OutcomeView, ProcessOutcome};
use crate::text::{chars_of, contains_chars, occurs_in};
use vstd::prelude::*;

verus! {

/// The lowercase form of a text, as Unicode defines it.
pub uninterp spec fn lowercased(s: Seq<char>) -> Seq<char>;

/// Calls `str::to_lowercase`. Trusted: the result is named `lowercased` of
/// the text; nothing more is claimed of it.
#[verifier::external_body]
fn to_lowercase(s: &str) -> (lowered: String)
    ensures
        lowered@ == lowercased(s@),
{
    s.to_lowercase()
}

/// Whether a lowercase text holds one of the phrases with which `docker`
/// turns down a compose command that it does not know.
pub open spec fn names_cli_mismatch(lowered: Seq<char>) -> bool {
    ||| occurs_in(lowered, "is not a docker command"@)
    ||| occurs_in(lowered, "unknown command"@)
    ||| occurs_in(lowered, "unknown shorthand flag"@)
    ||| occurs_in(lowered, "unknown flag: --no-build"@)
}

/// Whether the failure `e` of the first attempt calls for the second one:
/// the program did not start, or it exited with a message that tells of a
/// command or flag it does not know, in whatever case of letters.
pub open spec fn wants_fallback(e: ErrorView) -> bool {
    match e {
        ErrorView::Start { .. } => true,
        ErrorView::Exit { .. } => names_cli_mismatch(lowercased(e.message())),
        _ => false,
    }
}

/// The first attempt: `docker compose -f <config> <args>`, run in the
/// directory of the compose file.
pub open spec fn primary_invocation(config: PathView, args: Seq<Seq<char>>) -> InvocationView {
    InvocationView {
        program: Program::Docker,
        dir: config.parent(),
        args: seq![ArgView::Text("compose"@), ArgView::Text("-f"@), ArgView::File(config)]
            + text_args(args),
    }
}

/// The second attempt: `docker-compose -f <config> <args>`, run in the same
/// directory.
pub open spec fn fallback_invocation(config: PathView, args: Seq<Seq<char>>) -> InvocationView {
    InvocationView {
        program: Program::DockerCompose,
        dir: config.parent(),
        args: seq![ArgView::Text("-f"@), ArgView::File(config)] + text_args(args),
    }
}

/// Looks for the phrases of `names_cli_mismatch` in a text that is already
/// in lowercase.
pub fn mentions_cli_mismatch(lowered: &str) -> (b: bool)
    ensures
        b == names_cli_mismatch(lowered@),
{
    let hay = chars_of(lowered);
    contains_chars(&hay, &chars_of("is not a docker command")) || contains_chars(
        &hay,
        &chars_of("unknown command"),
    ) || contains_chars(&hay, &chars_of("unknown shorthand flag")) || contains_chars(
        &hay,
        &chars_of("unknown flag: --no-build"),
    )
}

/// Whether the rendered failure of `docker compose` tells that this `docker`
/// does not know the command: the text is put in lowercase and searched for
/// the phrases of `names_cli_mismatch`.
pub fn docker_compose_unsupported(rendered: &str) -> (b: bool)
    ensures
        b == names_cli_mismatch(lowercased(rendered@)),
{
    let lowered = to_lowercase(rendered);
    mentions_cli_mismatch(lowered.as_str())
}

/// Decides whether a failed first attempt is followed by the second.
pub fn should_fall_back(err: &CommandError) -> (b: bool)
    ensures
        b == wants_fallback(err@),
{
    match err {
        CommandError::Start { .. } => true,
        CommandError::Exit { .. } => {
            let message = err.message();
            docker_compose_unsupported(message.as_str())
        },
        _ => false,
    }
}

/// Appends `texts` to `args`, each as a text argument.
fn push_texts(args: &mut Vec<Arg>, more: &Vec<String>)
    ensures
        arg_views(final(args)@) == arg_views(old(args)@) + text_args(texts(more@)),
{
    let n: usize = more.len();
    let mut i: usize = 0;
    while i < n
        invariant
            n == more.len(),
            i <= n,
            arg_views(args@) == arg_views(old(args)@) + text_args(texts(more@)).take(i as int),
        decreases n - i,
    {
        let ghost before = args@;
        args.push(Arg::Text(more[i].clone()));
        assert(arg_views(args@) =~= arg_views(before).push(ArgView::Text(more@[i as int]@)));
        assert(text_args(texts(more@)).take(i + 1) =~= text_args(texts(more@)).take(
            i as int,
        ).push(ArgView::Text(more@[i as int]@)));
        i += 1;
    }
    assert(text_args(texts(more@)).take(n as int) =~= text_args(texts(more@)));
}

/// Builds the first attempt for the compose file `config`.
pub fn primary(config: &FsPath, args: &Vec<String>) -> (call: Invocation)
    ensures
        call@ == primary_invocation(config@, texts(args@)),
{
    let mut list: Vec<Arg> = Vec::new();
    list.push(Arg::Text(String::from_str("compose")));
    list.push(Arg::Text(String::from_str("-f")));
    list.push(Arg::File(config.duplicate()));
    assert(arg_views(list@) =~= seq![
        ArgView::Text("compose"@),
        ArgView::Text("-f"@),
        ArgView::File(config@),
    ]);
    push_texts(&mut list, args);
    Invocation { program: Program::Docker, dir: config.parent(), args: list }
}

/// Builds the second attempt for the compose file `config`.
pub fn fallback(config: &FsPath, args: &Vec<String>) -> (call: Invocation)
    ensures
        call@ == fallback_invocation(config@, texts(args@)),
{
    let mut list: Vec<Arg> = Vec::new();
    list.push(Arg::Text(String::from_str("-f")));
    list.push(Arg::File(config.duplicate()));
    assert(arg_views(list@) =~= seq![ArgView::Text("-f"@), ArgView::File(config@)]);
    push_texts(&mut list, args);
    Invocation { program: Program::DockerCompose, dir: config.parent(), args: list }
}

/// A compose command under way: the compose file, the command's arguments,
/// and whether the second attempt has been made.
#[derive(Debug, PartialEq, Eq)]
pub struct Dispatch {
    pub config: FsPath,
    pub args: Vec<String>,
    pub retried: bool,
}

/// A `Dispatch` as a mathematical value.
pub struct DispatchView {
    pub config: PathView,
    pub args: Seq<Seq<char>>,
    pub retried: bool,
}

impl View for Dispatch {
    type V = DispatchView;

    open spec fn view(&self) -> DispatchView {
        DispatchView { config: self.config@, args: texts(self.args@), retried: self.retried }
    }
}

/// What a compose command does next.
#[derive(Debug)]
pub enum DispatchStep {
    /// Run this call and hand its outcome to `resume`.
    Run(Dispatch, Invocation),
    /// The command is over, with this result.
    Done(Result<String, CommandError>),
}

/// A `DispatchStep` as a mathematical value.
pub enum DispatchStepView {
    Run { state: DispatchView, call: InvocationView },
    Done { result: Result<Seq<char>, ErrorView> },
}

impl View for DispatchStep {
    type V = DispatchStepView;

    open spec fn view(&self) -> DispatchStepView {
        match self {
            DispatchStep::Run(state, call) => DispatchStepView::Run { state: state@, call: call@ },
            DispatchStep::Done(Ok(text)) => DispatchStepView::Done { result: Ok(text@) },
            DispatchStep::Done(Err(e)) => DispatchStepView::Done { result: Err(e@) },
        }
    }
}

/// The step that follows the outcome of the attempt that `state` waits for.
/// The verdict on the second attempt is final. That on the first is final
/// too, unless it is a failure that calls for the second.
pub open spec fn after_attempt(state: DispatchView, outcome: OutcomeView) -> DispatchStepView {
    let verdict = checked(outcome);
    if !state.retried && verdict is Err && wants_fallback(verdict->Err_0) {
        DispatchStepView::Run {
            state: DispatchView { config: state.config, args: state.args, retried: true },
            call: fallback_invocation(state.config, state.args),
        }
    } else {
        DispatchStepView::Done { result: verdict }
    }
}

/// The result of a whole compose command, from the outcome of the first
/// attempt and that which the second attempt has if it is made.
pub open spec fn dispatched(primary: OutcomeView, fallback: OutcomeView) -> Result<
    Seq<char>,
    ErrorView,
> {
    let first = checked(primary);
    if first is Err && wants_fallback(first->Err_0) {
        checked(fallback)
    } else {
        first
    }
}

impl Dispatch {
    /// Starts the compose command `args` on the compose file `config`:
    /// the state, and the first attempt to run. Fails where the path of the
    /// compose file has no parent to run in.
    pub fn begin(config: FsPath, args: Vec<String>) -> (r: Result<
        (Dispatch, Invocation),
        CommandError,
    >)
        ensures
            r is Err <==> config@.parent() is None,
            r matches Err(e) ==> e@ == ErrorView::InvalidPath,
            r matches Ok((state, call)) ==> {
                &&& state@ == DispatchView {
                    config: config@,
                    args: texts(args@),
                    retried: false,
                }
                &&& call@ == primary_invocation(config@, texts(args@))
            },
    {
        if config.names.len() == 0 {
            return Err(CommandError::InvalidPath);
        }
        let call = primary(&config, &args);
        Ok((Dispatch { config, args, retried: false }, call))
    }

    /// Takes the outcome of the attempt that was run last. The command ends
    /// with the verdict on it, or goes on with the second attempt.
    pub fn resume(self, outcome: ProcessOutcome) -> (step: DispatchStep)
        ensures
            step@ == after_attempt(self@, outcome@),
    {
        let verdict = run_checked(outcome);
        if self.retried {
            return DispatchStep::Done(verdict);
        }
        match verdict {
            Ok(text) => DispatchStep::Done(Ok(text)),
            Err(e) => {
                if should_fall_back(&e) {
                    let call = fallback(&self.config, &self.args);
                    DispatchStep::Run(
                        Dispatch { config: self.config, args: self.args, retried: true },
                        call,
                    )
                } else {
                    DispatchStep::Done(Err(e))
                }
            },
        }
    }
}

/// The second attempt is the last: whatever its outcome, the command ends
/// with the verdict on it.
pub proof fn lemma_single_retry(state: DispatchView, first: OutcomeView, second: OutcomeView)
    requires
        after_attempt(state, first) is Run,
    ensures
        after_attempt(after_attempt(state, first)->state, second) == (DispatchStepView::Done {
            result: checked(second),
        }),
{
}

/// A command that is run step by step ends with `dispatched` of the two
/// outcomes: the verdict on the first attempt where no second is made, the
/// verdict on the second otherwise.
pub proof fn lemma_steps_give_dispatched(
    config: PathView,
    args: Seq<Seq<char>>,
    first: OutcomeView,
    second: OutcomeView,
)
    ensures
        ({
            let state = DispatchView { config, args, retried: false };
            match after_attempt(state, first) {
                DispatchStepView::Done { result } => result == dispatched(first, second),
                DispatchStepView::Run { state: next, call } => {
                    &&& call == fallback_invocation(config, args)
                    &&& after_attempt(next, second) == (DispatchStepView::Done {
                        result: dispatched(first, second),
                    })
                },
            }
        }),
{
}

/// A first attempt that exits with a failure whose message, in lowercase,
/// holds `unknown command` is followed by the second attempt.
pub proof fn lemma_unknown_command_retries(state: DispatchView, outcome: OutcomeView)
    requires
        !state.retried,
        checked(outcome) matches Err(e) && e is Exit && occurs_in(
            lowercased(e.message()),
            "unknown command"@,
        ),
    ensures
        after_attempt(state, outcome) is Run,
{
}

/// A first attempt that exits with a failure whose message holds none of
/// the phrases is not followed by another: the failure is the result as it
/// stands.
pub proof fn lemma_other_failure_is_final(state: DispatchView, outcome: OutcomeView)
    requires
        checked(outcome) matches Err(e) && e is Exit && !names_cli_mismatch(
            lowercased(e.message()),
        ),
    ensures
        after_attempt(state, outcome) == (DispatchStepView::Done { result: checked(outcome) }),
{
}

} // verus!
