//! The dispatcher: which calls one invocation makes, and in which order.
//!
//! The dispatcher makes no call itself. It hands out one [`Action`] at a
//! time; the caller carries the action out and answers with an [`Event`],
//! for which the dispatcher hands out the next action. The last action of a
//! run is [`Action::Finish`] with the result of the run.

use vstd::prelude::*;

use crate::artifact::ArtifactSet;
use crate::invocation::{Invocation, Settings, Subcommand};
use crate::report::{ErrorDetail, ErrorKind, Failure};

verus! {

/// One call for the caller to make.
#[derive(Debug, PartialEq, Eq)]
pub enum Action {
    /// Construct the configuration from these settings.
    Configure(Settings),
    /// Find out whether the output path exists.
    ProbeOutput,
    /// Build these artifacts.
    Build(ArtifactSet),
    /// Open the documentation in a viewer.
    OpenDocs,
    /// Run the documentation tests.
    RunTests,
    /// Make no further call: the run has ended with this result.
    Finish(Result<(), Failure>),
}

/// What came of an action.
#[derive(Clone, Debug, PartialEq, Eq)]
pub enum Event {
    /// The call returned without an error.
    Completed,
    /// The call returned this error.
    Failed(ErrorDetail),
    /// The output path was looked for, and does or does not exist.
    OutputExists(bool),
}

/// The state that a run is in: chosen once, from the subcommand.
#[derive(Clone, Copy, Debug, PartialEq, Eq, Structural)]
pub enum DispatchState {
    Build,
    Open,
    Test,
    /// No subcommand was given.
    Default,
}

/// What follows a build that succeeded.
#[derive(Clone, Copy, Debug, PartialEq, Eq, Structural)]
pub enum Then {
    /// Nothing: the run is over.
    Finish,
    /// The documentation is opened.
    Open,
    /// The documentation tests are run.
    Test,
}

/// The action whose outcome the dispatcher is waiting for.
#[derive(Clone, Copy, Debug, PartialEq, Eq, Structural)]
pub enum Pending {
    /// The configuration is being constructed, for this subcommand.
    Config(Subcommand),
    /// The output path is being looked for.
    Probe,
    /// A build is running.
    Build(Then),
    /// The documentation is being opened.
    Open,
    /// The documentation tests are running.
    Test,
    /// Nothing: the run is over.
    Nothing,
}

/// The state machine of one run.
#[derive(Clone, Copy, Debug, PartialEq, Eq, Structural)]
pub struct Dispatcher {
    /// The state that the run is in.
    pub state: DispatchState,
    /// What the dispatcher is waiting for.
    pub pending: Pending,
}

impl DispatchState {
    /// The state that a subcommand puts a run in.
    pub open spec fn of(command: Subcommand) -> DispatchState {
        match command {
            Subcommand::Build { .. } => DispatchState::Build,
            Subcommand::Open => DispatchState::Open,
            Subcommand::Test => DispatchState::Test,
            Subcommand::Unspecified => DispatchState::Default,
        }
    }
}

impl Pending {
    /// The kind of an error that the pending action returns.
    pub open spec fn error_kind(self) -> ErrorKind {
        match self {
            Pending::Config(_) => ErrorKind::Config,
            Pending::Build(_) => ErrorKind::Build,
            Pending::Open => ErrorKind::Open,
            Pending::Test => ErrorKind::Test,
            _ => arbitrary(),
        }
    }

    /// An upper bound on the number of events that are still to come.
    pub open spec fn remaining(self) -> nat {
        match self {
            Pending::Config(_) => 4,
            Pending::Probe => 3,
            Pending::Build(_) => 2,
            Pending::Open => 1,
            Pending::Test => 1,
            Pending::Nothing => 0,
        }
    }
}

impl Dispatcher {
    /// Whether `event` can be the outcome of the pending action: a probe is
    /// answered by what it found, every other action by success or an error,
    /// and a run that is over takes no event.
    pub open spec fn accepts(self, event: Event) -> bool {
        match self.pending {
            Pending::Probe => event is OutputExists,
            Pending::Nothing => false,
            _ => event is Completed || event is Failed,
        }
    }

    /// The first action of a run, and the dispatcher that waits for its
    /// outcome: every run starts by constructing the configuration.
    pub open spec fn first(invocation: Invocation) -> (Dispatcher, Action) {
        (
            Dispatcher {
                state: DispatchState::of(invocation.command),
                pending: Pending::Config(invocation.command),
            },
            Action::Configure(invocation.settings),
        )
    }

    /// The dispatcher that waits for `pending`.
    pub open spec fn waiting(self, pending: Pending) -> Dispatcher {
        Dispatcher { state: self.state, pending }
    }

    /// The transition function: the dispatcher and the action that follow
    /// `event`, where the dispatcher accepts it.
    ///
    /// An error ends the run at once, with the error and the kind of the
    /// action that returned it. Success is followed by the next call of the
    /// subcommand, or ends the run where there is none.
    pub open spec fn next(self, event: Event) -> (Dispatcher, Action) {
        match event {
            Event::Failed(detail) => (
                self.waiting(Pending::Nothing),
                Action::Finish(Err(Failure { kind: self.pending.error_kind(), detail })),
            ),
            Event::OutputExists(exists) => if exists {
                (self.waiting(Pending::Open), Action::OpenDocs)
            } else {
                (
                    self.waiting(Pending::Build(Then::Open)),
                    Action::Build(ArtifactSet::OnlyFrontend),
                )
            },
            Event::Completed => match self.pending {
                Pending::Config(Subcommand::Build { artifacts, open_after }) => (
                    self.waiting(
                        Pending::Build(
                            if open_after {
                                Then::Open
                            } else {
                                Then::Finish
                            },
                        ),
                    ),
                    Action::Build(artifacts),
                ),
                Pending::Config(Subcommand::Open) => (
                    self.waiting(Pending::Probe),
                    Action::ProbeOutput,
                ),
                Pending::Config(Subcommand::Test) => (
                    self.waiting(Pending::Build(Then::Test)),
                    Action::Build(ArtifactSet::Both),
                ),
                Pending::Config(Subcommand::Unspecified) => (
                    self.waiting(Pending::Build(Then::Finish)),
                    Action::Build(ArtifactSet::OnlyFrontend),
                ),
                Pending::Build(Then::Open) => (self.waiting(Pending::Open), Action::OpenDocs),
                Pending::Build(Then::Test) => (self.waiting(Pending::Test), Action::RunTests),
                _ => (self.waiting(Pending::Nothing), Action::Finish(Ok(()))),
            },
        }
    }

    /// Starts the run of an invocation. Returns the dispatcher and the first
    /// action, which is always the construction of the configuration: no
    /// other call is made before it has succeeded.
    pub fn start(invocation: Invocation) -> (started: (Dispatcher, Action))
        ensures
            started == Dispatcher::first(invocation),
    {
        let state = match invocation.command {
            Subcommand::Build { .. } => DispatchState::Build,
            Subcommand::Open => DispatchState::Open,
            Subcommand::Test => DispatchState::Test,
            Subcommand::Unspecified => DispatchState::Default,
        };
        (
            Dispatcher { state, pending: Pending::Config(invocation.command) },
            Action::Configure(invocation.settings),
        )
    }

    /// Returns the state that the run is in.
    pub fn state(&self) -> (state: DispatchState)
        ensures
            state == self.state,
    {
        self.state
    }

    /// Returns whether the run is over: the last action has been handed out.
    pub fn is_finished(&self) -> (finished: bool)
        ensures
            finished == (self.pending == Pending::Nothing),
    {
        match self.pending {
            Pending::Nothing => true,
            _ => false,
        }
    }

    /// Returns whether `event` can be the outcome of the pending action.
    pub fn can_accept(&self, event: &Event) -> (accepted: bool)
        ensures
            accepted == self.accepts(*event),
    {
        match self.pending {
            Pending::Probe => match event {
                Event::OutputExists(_) => true,
                _ => false,
            },
            Pending::Nothing => false,
            _ => match event {
                Event::OutputExists(_) => false,
                _ => true,
            },
        }
    }

    /// Takes the outcome of the pending action and returns the next action.
    ///
    /// The state of the run never changes. An error is handed on unchanged,
    /// and nothing is called after it.
    pub fn step(&mut self, event: Event) -> (action: Action)
        requires
            old(self).accepts(event),
        ensures
            (*final(self), action) == old(self).next(event),
            final(self).state == old(self).state,
            event matches Event::Failed(detail) ==> action == Action::Finish(
                Err(Failure { kind: old(self).pending.error_kind(), detail }),
            ),
    {
        let pending = self.pending;
        match event {
            Event::Failed(detail) => {
                let kind = match pending {
                    Pending::Config(_) => ErrorKind::Config,
                    Pending::Build(_) => ErrorKind::Build,
                    Pending::Open => ErrorKind::Open,
                    _ => ErrorKind::Test,
                };
                self.pending = Pending::Nothing;
                Action::Finish(Err(Failure { kind, detail }))
            },
            Event::OutputExists(exists) => {
                if exists {
                    self.pending = Pending::Open;
                    Action::OpenDocs
                } else {
                    self.pending = Pending::Build(Then::Open);
                    Action::Build(ArtifactSet::default())
                }
            },
            Event::Completed => match pending {
                Pending::Config(Subcommand::Build { artifacts, open_after }) => {
                    self.pending = Pending::Build(
                        if open_after {
                            Then::Open
                        } else {
                            Then::Finish
                        },
                    );
                    Action::Build(artifacts)
                },
                Pending::Config(Subcommand::Open) => {
                    self.pending = Pending::Probe;
                    Action::ProbeOutput
                },
                Pending::Config(Subcommand::Test) => {
                    self.pending = Pending::Build(Then::Test);
                    Action::Build(ArtifactSet::all())
                },
                Pending::Config(Subcommand::Unspecified) => {
                    self.pending = Pending::Build(Then::Finish);
                    Action::Build(ArtifactSet::default())
                },
                Pending::Build(Then::Open) => {
                    self.pending = Pending::Open;
                    Action::OpenDocs
                },
                Pending::Build(Then::Test) => {
                    self.pending = Pending::Test;
                    Action::RunTests
                },
                _ => {
                    self.pending = Pending::Nothing;
                    Action::Finish(Ok(()))
                },
            },
        }
    }
}

} // verus!
