//! From what the command line matched to what the run is to do.

use vstd::prelude::*;
use vstd::string::*;

use crate::artifact::{Artifact, ArtifactSet};
use crate::verbosity::Verbosity;

verus! {

/// The manifest that is documented where `--manifest-path` is not given.
pub const DEFAULT_MANIFEST_PATH: &'static str = "./Cargo.toml";

/// The name of the subcommand that builds the documentation.
pub const BUILD: &'static str = "build";

/// The name of the subcommand that opens the documentation.
pub const OPEN: &'static str = "open";

/// The name of the subcommand that runs the documentation tests.
pub const TEST: &'static str = "test";

/// What was matched below a subcommand.
#[derive(Clone, Debug, PartialEq, Eq)]
pub struct SubcommandMatches {
    /// The subcommand's name as it was typed.
    pub name: String,
    /// The values of `--emit`, where the option was given.
    pub artifacts: Option<Vec<String>>,
    /// Whether `--open` was given.
    pub open: bool,
}

/// What was matched on the command line, as plain values.
#[derive(Clone, Debug, PartialEq, Eq)]
pub struct Matches {
    /// The value of `--manifest-path`, where one is known.
    pub manifest_path: Option<String>,
    /// Whether `--quiet` was given.
    pub quiet: bool,
    /// Whether `--verbose` was given.
    pub verbose: bool,
    /// The subcommand, where one was given.
    pub subcommand: Option<SubcommandMatches>,
}

/// The settings from which the configuration of a run is constructed.
#[derive(Clone, Debug, PartialEq, Eq)]
pub struct Settings {
    /// The manifest of the project to document.
    pub manifest_path: String,
    /// How much the run prints.
    pub verbosity: Verbosity,
}

/// What the run was asked to do.
#[derive(Clone, Copy, Debug, PartialEq, Eq, Structural)]
pub enum Subcommand {
    /// Build the documentation, and open it afterwards if asked to.
    Build { artifacts: ArtifactSet, open_after: bool },
    /// Open the documentation, building it first where it is missing.
    Open,
    /// Build everything, then run the documentation tests.
    Test,
    /// No subcommand was given.
    Unspecified,
}

/// One resolved invocation: the settings and the subcommand.
#[derive(Clone, Debug, PartialEq, Eq)]
pub struct Invocation {
    pub settings: Settings,
    pub command: Subcommand,
}

impl Subcommand {
    /// The subcommand that the matches select. `build` takes its artifacts
    /// and its open flag from the matches; `open` and `test` take nothing;
    /// any other name, like no name at all, selects nothing.
    pub open spec fn selected(matches: Option<SubcommandMatches>) -> Subcommand {
        match matches {
            Some(sub) => if sub.name@ == BUILD@ {
                Subcommand::Build {
                    artifacts: ArtifactSet::resolved(sub.artifacts),
                    open_after: sub.open,
                }
            } else if sub.name@ == OPEN@ {
                Subcommand::Open
            } else if sub.name@ == TEST@ {
                Subcommand::Test
            } else {
                Subcommand::Unspecified
            },
            None => Subcommand::Unspecified,
        }
    }

    /// Selects the subcommand from what was matched.
    pub fn select(matches: &Option<SubcommandMatches>) -> (command: Subcommand)
        ensures
            command == Subcommand::selected(*matches),
    {
        match matches {
            Some(sub) => {
                if sub.name == BUILD.to_owned() {
                    Subcommand::Build {
                        artifacts: ArtifactSet::resolve(&sub.artifacts),
                        open_after: sub.open,
                    }
                } else if sub.name == OPEN.to_owned() {
                    Subcommand::Open
                } else if sub.name == TEST.to_owned() {
                    Subcommand::Test
                } else {
                    Subcommand::Unspecified
                }
            },
            None => Subcommand::Unspecified,
        }
    }
}

impl Subcommand {
    /// `build` without `--emit` builds the frontend and nothing else,
    /// whatever else was matched.
    pub proof fn lemma_build_without_emit_builds_frontend(matches: SubcommandMatches)
        requires
            matches.name@ == BUILD@,
            matches.artifacts is None,
        ensures
            Subcommand::selected(Some(matches)) == (Subcommand::Build {
                artifacts: ArtifactSet::OnlyFrontend,
                open_after: matches.open,
            }),
            ArtifactSet::OnlyFrontend@ == set![Artifact::Frontend],
    {
        ArtifactSet::lemma_no_list_selects_frontend();
    }

    /// `build` with a list of known names, at least one, builds exactly the
    /// artifacts that the list names.
    pub proof fn lemma_build_with_emit_builds_the_list(matches: SubcommandMatches)
        requires
            matches.name@ == BUILD@,
            matches.artifacts matches Some(names) && names@.len() > 0 && forall|i: int|
                0 <= i < names@.len() ==> Artifact::named(#[trigger] names@[i]@) is Some,
        ensures
            Subcommand::selected(Some(matches)) matches Subcommand::Build { artifacts, open_after }
                && open_after == matches.open && forall|a: Artifact|
                artifacts@.contains(a) <==> ArtifactSet::mentions(matches.artifacts->Some_0@, a),
    {
        ArtifactSet::lemma_valid_list_selects_its_members(matches.artifacts->Some_0);
    }
}

impl Settings {
    /// The manifest path that is used for what `--manifest-path` held.
    pub open spec fn manifest_path_for(given: Option<String>) -> Seq<char> {
        match given {
            Some(path) => path@,
            None => DEFAULT_MANIFEST_PATH@,
        }
    }
}

/// Resolves the matches of one command line to an invocation.
///
/// The manifest path falls back to [`DEFAULT_MANIFEST_PATH`], the verbosity
/// follows [`Verbosity::select`], and the subcommand follows
/// [`Subcommand::selected`].
pub fn resolve(matches: Matches) -> (invocation: Invocation)
    ensures
        invocation.settings.manifest_path@ == Settings::manifest_path_for(matches.manifest_path),
        invocation.settings.verbosity == Verbosity::select(matches.quiet, matches.verbose),
        matches.quiet ==> invocation.settings.verbosity == Verbosity::Quiet,
        invocation.command == Subcommand::selected(matches.subcommand),
{
    let command = Subcommand::select(&matches.subcommand);
    let verbosity = Verbosity::from_flags(matches.quiet, matches.verbose);
    let manifest_path = match matches.manifest_path {
        Some(path) => path,
        None => DEFAULT_MANIFEST_PATH.to_owned(),
    };
    Invocation { settings: Settings { manifest_path, verbosity }, command }
}

} // verus!
