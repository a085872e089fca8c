//! How much a run prints.

use vstd::prelude::*;

verus! {

/// The output volume of one invocation.
#[derive(Clone, Copy, Debug, PartialEq, Eq, Structural)]
pub enum Verbosity {
    /// Nothing is printed to standard output.
    Quiet,
    /// The default amount of output.
    Normal,
    /// Additional progress output.
    Verbose,
}

impl Verbosity {
    /// The verbosity that a pair of flags selects. The quiet flag is looked at
    /// first, so it wins where both are given.
    pub open spec fn select(quiet: bool, verbose: bool) -> Verbosity {
        if quiet {
            Verbosity::Quiet
        } else if verbose {
            Verbosity::Verbose
        } else {
            Verbosity::Normal
        }
    }

    /// Resolves the `--quiet` and `--verbose` flags to one verbosity.
    pub fn from_flags(quiet: bool, verbose: bool) -> (v: Verbosity)
        ensures
            v == Verbosity::select(quiet, verbose),
            quiet ==> v == Verbosity::Quiet,
            !quiet && verbose ==> v == Verbosity::Verbose,
            !quiet && !verbose ==> v == Verbosity::Normal,
    {
        if quiet {
            Verbosity::Quiet
        } else if verbose {
            Verbosity::Verbose
        } else {
            Verbosity::Normal
        }
    }
}

} // verus!
