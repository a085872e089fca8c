//! What a whole run does, whatever the calls return.
//!
//! [`calls`] follows the dispatcher through one run against given outcomes
//! of the calls. [`script`] says what an invocation is to do, in the order
//! in which one would write the calls down. The two agree, and what is
//! promised of every run is stated over them.

use vstd::prelude::*;

use crate::artifact::ArtifactSet;
use crate::dispatch::{Action, Dispatcher, Event};
use crate::invocation::{Invocation, Settings, Subcommand, SubcommandMatches, TEST};
use crate::report::{diagnostic_lines, exit_status, ErrorDetail, ErrorKind, Failure, EXIT_FAILURE};

verus! {

/// What each call returns in one run.
pub struct Outcomes {
    /// What constructing the configuration returns.
    pub config: Result<(), ErrorDetail>,
    /// Whether the output path exists.
    pub output_exists: bool,
    /// What a build returns.
    pub build: Result<(), ErrorDetail>,
    /// What opening the documentation returns.
    pub open: Result<(), ErrorDetail>,
    /// What the documentation tests return.
    pub test: Result<(), ErrorDetail>,
}

/// The event that reports the result of a call.
pub open spec fn reported(result: Result<(), ErrorDetail>) -> Event {
    match result {
        Ok(_) => Event::Completed,
        Err(detail) => Event::Failed(detail),
    }
}

impl Outcomes {
    /// The event with which `action` is answered.
    pub open spec fn answer(self, action: Action) -> Event {
        match action {
            Action::Configure(_) => reported(self.config),
            Action::ProbeOutput => Event::OutputExists(self.output_exists),
            Action::Build(_) => reported(self.build),
            Action::OpenDocs => reported(self.open),
            Action::RunTests => reported(self.test),
            Action::Finish(_) => arbitrary(),
        }
    }

    /// Whether no call returns an error.
    pub open spec fn all_succeed(self) -> bool {
        self.config is Ok && self.build is Ok && self.open is Ok && self.test is Ok
    }
}

/// The actions that the dispatcher hands out from `action` on, where each is
/// answered as `outcomes` says.
pub open spec fn calls_from(dispatcher: Dispatcher, action: Action, outcomes: Outcomes) -> Seq<
    Action,
>
    decreases dispatcher.pending.remaining(),
{
    let event = outcomes.answer(action);
    if action is Finish || !dispatcher.accepts(event) {
        seq![action]
    } else {
        let (following, next) = dispatcher.next(event);
        seq![action] + calls_from(following, next, outcomes)
    }
}

/// The actions of the whole run of `invocation`, in order.
pub open spec fn calls(invocation: Invocation, outcomes: Outcomes) -> Seq<Action> {
    let (dispatcher, action) = Dispatcher::first(invocation);
    calls_from(dispatcher, action, outcomes)
}

/// The end of a run in which nothing failed.
pub open spec fn done() -> Seq<Action> {
    seq![Action::Finish(Ok(()))]
}

/// One call and what follows it: `rest` where the call succeeds, and the end
/// of the run, with the error and its kind, where it fails.
pub open spec fn attempt(
    action: Action,
    kind: ErrorKind,
    result: Result<(), ErrorDetail>,
    rest: Seq<Action>,
) -> Seq<Action> {
    match result {
        Ok(_) => seq![action] + rest,
        Err(detail) => seq![action, Action::Finish(Err(Failure { kind, detail }))],
    }
}

/// What a subcommand does once the configuration stands.
pub open spec fn body(command: Subcommand, outcomes: Outcomes) -> Seq<Action> {
    let open_docs = attempt(Action::OpenDocs, ErrorKind::Open, outcomes.open, done());
    let run_tests = attempt(Action::RunTests, ErrorKind::Test, outcomes.test, done());
    match command {
        Subcommand::Build { artifacts, open_after } => attempt(
            Action::Build(artifacts),
            ErrorKind::Build,
            outcomes.build,
            if open_after {
                open_docs
            } else {
                done()
            },
        ),
        Subcommand::Open => seq![Action::ProbeOutput] + (if outcomes.output_exists {
            open_docs
        } else {
            attempt(
                Action::Build(ArtifactSet::OnlyFrontend),
                ErrorKind::Build,
                outcomes.build,
                open_docs,
            )
        }),
        Subcommand::Test => attempt(
            Action::Build(ArtifactSet::Both),
            ErrorKind::Build,
            outcomes.build,
            run_tests,
        ),
        Subcommand::Unspecified => attempt(
            Action::Build(ArtifactSet::OnlyFrontend),
            ErrorKind::Build,
            outcomes.build,
            done(),
        ),
    }
}

/// What an invocation does: it constructs the configuration, and then what
/// its subcommand asks for.
pub open spec fn script(invocation: Invocation, outcomes: Outcomes) -> Seq<Action> {
    attempt(
        Action::Configure(invocation.settings),
        ErrorKind::Config,
        outcomes.config,
        body(invocation.command, outcomes),
    )
}

/// The dispatcher makes the calls of the script, in its order, and no other.
pub proof fn lemma_calls_follow_script(invocation: Invocation, outcomes: Outcomes)
    ensures
        calls(invocation, outcomes) == script(invocation, outcomes),
{
    reveal_with_fuel(calls_from, 6);
    assert(calls(invocation, outcomes) =~= script(invocation, outcomes));
}

/// The kind of an error that `action` returns.
pub open spec fn kind_of(action: Action) -> ErrorKind {
    match action {
        Action::Configure(_) => ErrorKind::Config,
        Action::Build(_) => ErrorKind::Build,
        Action::OpenDocs => ErrorKind::Open,
        Action::RunTests => ErrorKind::Test,
        _ => arbitrary(),
    }
}

/// Every run starts by constructing the configuration from the invocation's
/// settings, and constructs it once. Where that fails, the run ends there:
/// nothing is built, opened or tested.
pub proof fn lemma_configuration_comes_first(invocation: Invocation, outcomes: Outcomes)
    ensures
        calls(invocation, outcomes)[0] == Action::Configure(invocation.settings),
        forall|i: int|
            0 < i < calls(invocation, outcomes).len() ==> !(#[trigger] calls(
                invocation,
                outcomes,
            )[i] is Configure),
        outcomes.config matches Err(detail) ==> calls(invocation, outcomes) == seq![
            Action::Configure(invocation.settings),
            Action::Finish(Err(Failure { kind: ErrorKind::Config, detail })),
        ],
{
    lemma_calls_follow_script(invocation, outcomes);
}

/// A run without a subcommand makes the calls of `build` with the default
/// artifacts and without opening, whatever the calls return.
pub proof fn lemma_no_subcommand_is_default_build(settings: Settings, outcomes: Outcomes)
    ensures
        calls(Invocation { settings, command: Subcommand::Unspecified }, outcomes) == calls(
            Invocation {
                settings,
                command: Subcommand::Build {
                    artifacts: ArtifactSet::OnlyFrontend,
                    open_after: false,
                },
            },
            outcomes,
        ),
{
    lemma_calls_follow_script(Invocation { settings, command: Subcommand::Unspecified }, outcomes);
    lemma_calls_follow_script(
        Invocation {
            settings,
            command: Subcommand::Build {
                artifacts: ArtifactSet::OnlyFrontend,
                open_after: false,
            },
        },
        outcomes,
    );
}

/// `build` builds the artifacts of the invocation, and opens the
/// documentation afterwards if and only if it was asked to and the build
/// succeeded.
pub proof fn lemma_build_then_open(
    settings: Settings,
    artifacts: ArtifactSet,
    open_after: bool,
    outcomes: Outcomes,
)
    requires
        outcomes.config is Ok,
    ensures
        ({
            let run = calls(
                Invocation { settings, command: Subcommand::Build { artifacts, open_after } },
                outcomes,
            );
            &&& run[1] == Action::Build(artifacts)
            &&& forall|i: int| 0 <= i < run.len() && #[trigger] run[i] is Build ==> i == 1
            &&& forall|i: int|
                0 <= i < run.len() ==> !(#[trigger] run[i] is ProbeOutput) && !(run[i] is RunTests)
            &&& open_after && outcomes.build is Ok ==> run[2] == Action::OpenDocs
            &&& forall|i: int|
                0 <= i < run.len() && #[trigger] run[i] is OpenDocs ==> i == 2 && open_after
                    && outcomes.build is Ok
        }),
{
    lemma_calls_follow_script(
        Invocation { settings, command: Subcommand::Build { artifacts, open_after } },
        outcomes,
    );
}

/// `open` looks for the output first. Where it is missing, the default
/// artifacts are built before the documentation is opened, and it is not
/// opened unless that build succeeded. Where it exists, nothing is built.
pub proof fn lemma_open_builds_what_is_missing(settings: Settings, outcomes: Outcomes)
    requires
        outcomes.config is Ok,
    ensures
        ({
            let run = calls(Invocation { settings, command: Subcommand::Open }, outcomes);
            &&& run[1] == Action::ProbeOutput
            &&& outcomes.output_exists ==> run[2] == Action::OpenDocs && forall|i: int|
                0 <= i < run.len() ==> !(#[trigger] run[i] is Build)
            &&& !outcomes.output_exists ==> run[2] == Action::Build(ArtifactSet::OnlyFrontend)
                && (outcomes.build is Ok ==> run[3] == Action::OpenDocs) && forall|i: int|
                0 <= i < run.len() && #[trigger] run[i] is OpenDocs ==> i == 3
                    && outcomes.build is Ok
        }),
{
    lemma_calls_follow_script(Invocation { settings, command: Subcommand::Open }, outcomes);
}

/// A subcommand named `test` builds every artifact, whatever was matched
/// below it, and runs the tests after that build and only if it succeeded.
pub proof fn lemma_test_builds_everything(
    settings: Settings,
    matches: SubcommandMatches,
    outcomes: Outcomes,
)
    requires
        matches.name@ == TEST@,
        outcomes.config is Ok,
    ensures
        Subcommand::selected(Some(matches)) == Subcommand::Test,
        ({
            let run = calls(
                Invocation { settings, command: Subcommand::selected(Some(matches)) },
                outcomes,
            );
            &&& run[1] == Action::Build(ArtifactSet::Both)
            &&& forall|i: int| 0 <= i < run.len() && #[trigger] run[i] is Build ==> i == 1
            &&& outcomes.build is Ok ==> run[2] == Action::RunTests
            &&& forall|i: int|
                0 <= i < run.len() && #[trigger] run[i] is RunTests ==> i == 2
                    && outcomes.build is Ok
        }),
{
    reveal_strlit("test");
    reveal_strlit("build");
    reveal_strlit("open");
    assert("test"@.len() == 4);
    assert("build"@.len() == 5);
    assert("test"@[0] != "open"@[0]);
    lemma_calls_follow_script(Invocation { settings, command: Subcommand::Test }, outcomes);
}

/// Every run ends with its result, and hands out nothing after it. The
/// result is a failure exactly where the last call returned an error: then
/// it carries that error unchanged and the kind of that call, the exit
/// status is `1`, and the diagnostic shows the error's message and cause. No
/// call is made after one that failed. A run without errors succeeds.
pub proof fn lemma_failure_ends_the_run(invocation: Invocation, outcomes: Outcomes)
    ensures
        ({
            let run = calls(invocation, outcomes);
            let last = run.len() - 1;
            &&& run.len() >= 2
            &&& run[last] is Finish
            &&& forall|i: int| 0 <= i < last ==> !(#[trigger] run[i] is Finish)
            &&& forall|i: int|
                0 <= i < last && #[trigger] outcomes.answer(run[i]) is Failed ==> i == last - 1
            &&& run[last] matches Action::Finish(result) && match result {
                Ok(_) => !(outcomes.answer(run[last - 1]) is Failed),
                Err(failure) => {
                    &&& outcomes.answer(run[last - 1]) == Event::Failed(failure.detail)
                    &&& failure.kind == kind_of(run[last - 1])
                    &&& exit_status(result) == EXIT_FAILURE
                    &&& diagnostic_lines(failure.detail)[0] == "Error: "@ + failure.detail.message@
                    &&& diagnostic_lines(failure.detail)[1] == "Caused by: "@
                        + failure.detail.cause@
                },
            }
            &&& outcomes.all_succeed() ==> run[last] == Action::Finish(Ok(()))
        }),
{
    lemma_calls_follow_script(invocation, outcomes);
}

} // verus!
