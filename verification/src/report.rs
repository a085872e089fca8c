//! The last resort: what is printed, and with which status the process ends,
//! when a run has failed.

use vstd::prelude::*;
use vstd::string::*;

verus! {

/// The status with which a run that succeeded ends.
pub const EXIT_SUCCESS: i32 = 0;

/// The status with which a run that failed ends.
pub const EXIT_FAILURE: i32 = 1;

/// The step of a run in which an error arose.
#[derive(Clone, Copy, Debug, PartialEq, Eq, Structural)]
pub enum ErrorKind {
    /// The configuration could not be constructed from the manifest path.
    Config,
    /// The build failed.
    Build,
    /// The documentation could not be opened.
    Open,
    /// The documentation tests failed.
    Test,
}

/// What an error says of itself.
#[derive(Clone, Debug, PartialEq, Eq)]
pub struct ErrorDetail {
    /// The error's own message.
    pub message: String,
    /// The message of its immediate cause.
    pub cause: String,
    /// The backtrace, where one was captured.
    pub backtrace: Option<String>,
}

/// An error together with the step that it stopped.
#[derive(Clone, Debug, PartialEq, Eq)]
pub struct Failure {
    pub kind: ErrorKind,
    pub detail: ErrorDetail,
}

/// The lines of the diagnostic of an error: its message, its cause and its
/// backtrace, each behind its label. Where no backtrace was captured, the
/// third line ends with its label.
pub open spec fn diagnostic_lines(detail: ErrorDetail) -> Seq<Seq<char>> {
    seq![
        "Error: "@ + detail.message@,
        "Caused by: "@ + detail.cause@,
        match detail.backtrace {
            Some(trace) => "Backtrace, if any: "@ + trace@,
            None => "Backtrace, if any: "@,
        },
    ]
}

/// The status with which the process ends after a run with this result.
pub open spec fn exit_status(result: Result<(), Failure>) -> i32 {
    if result is Ok {
        EXIT_SUCCESS
    } else {
        EXIT_FAILURE
    }
}

/// Returns the exit status for the result of a run: `0` for success and `1`
/// for every failure, whatever its kind.
pub fn exit_code(result: &Result<(), Failure>) -> (code: i32)
    ensures
        code == exit_status(*result),
        result is Ok <==> code == 0,
        result is Err <==> code == 1,
{
    match result {
        Ok(_) => EXIT_SUCCESS,
        Err(_) => EXIT_FAILURE,
    }
}

/// Renders the diagnostic of a failure: three lines, to be written to the
/// error stream in this order.
pub fn diagnostic(failure: &Failure) -> (lines: Vec<String>)
    ensures
        lines@.len() == 3,
        forall|i: int|
            0 <= i < 3 ==> (#[trigger] lines@[i])@ == diagnostic_lines(failure.detail)[i],
        lines@[0]@ == "Error: "@ + failure.detail.message@,
        lines@[1]@ == "Caused by: "@ + failure.detail.cause@,
        lines@[2]@ == match failure.detail.backtrace {
            Some(trace) => "Backtrace, if any: "@ + trace@,
            None => "Backtrace, if any: "@,
        },
{
    let mut error = "Error: ".to_owned();
    error.append(failure.detail.message.as_str());
    let mut cause = "Caused by: ".to_owned();
    cause.append(failure.detail.cause.as_str());
    let mut backtrace = "Backtrace, if any: ".to_owned();
    match &failure.detail.backtrace {
        Some(trace) => {
            backtrace.append(trace.as_str());
        },
        None => {},
    }
    let mut lines: Vec<String> = Vec::new();
    lines.push(error);
    lines.push(cause);
    lines.push(backtrace);
    lines
}

} // verus!
