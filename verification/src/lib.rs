//! Command resolution and dispatch for a documentation tool's command line.
//!
//! The crate resolves what was matched on the command line to an invocation
//! ([`invocation`]), sequences the calls that the invocation asks for
//! ([`dispatch`]), says what every run does ([`run`]), and renders the
//! diagnostic of a run that failed ([`report`]). It performs no input or
//! output of its own: the caller carries out each [`dispatch::Action`] and
//! reports back what happened.

pub mod artifact;
pub mod dispatch;
pub mod invocation;
pub mod report;
pub mod run;
pub mod verbosity;
