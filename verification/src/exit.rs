//! What the end of the database process means.

use crate::error::{CockroachStartError, StartErrorView};
use vstd::prelude::*;
use vstd::string::*;

verus! {

/// How a process ended.
#[derive(Debug, PartialEq, Eq)]
pub struct ExitStatus {
    /// The exit code, if the process exited.
    pub code: Option<i32>,
    /// The signal, if one terminated the process.
    pub signal: Option<i32>,
    /// How the operating system's status reads.
    pub description: String,
}

/// How a process ended, by its text.
pub struct ExitStatusView {
    pub code: Option<i32>,
    pub signal: Option<i32>,
    pub description: Seq<char>,
}

impl DeepView for ExitStatus {
    type V = ExitStatusView;

    open spec fn deep_view(&self) -> ExitStatusView {
        ExitStatusView { code: self.code, signal: self.signal, description: self.description@ }
    }
}

/// The error that the end of the database process is.
pub open spec fn exit_error(status: ExitStatusView) -> StartErrorView {
    match (status.code, status.signal) {
        (Some(exit_code), _) => StartErrorView::Exited { exit_code },
        (None, Some(signal)) => StartErrorView::Signaled { signal },
        (None, None) => StartErrorView::Unknown {
            source: "process has an exit status, but no exit code nor signal: "@
                + status.description,
            cause: None,
        },
    }
}

/// Turns the end of the database process into an error.
pub fn interpret_exit(exit_status: ExitStatus) -> (r: CockroachStartError)
    ensures
        r@ == exit_error(exit_status.deep_view()),
{
    if let Some(exit_code) = exit_status.code {
        CockroachStartError::Exited { exit_code }
    } else if let Some(signal) = exit_status.signal {
        CockroachStartError::Signaled { signal }
    } else {
        // This case should not be possible.
        CockroachStartError::Unknown {
            source: "process has an exit status, but no exit code nor signal: ".to_owned().concat(
                exit_status.description.as_str(),
            ),
            cause: None,
        }
    }
}

/// The error that the database process has ended with, if it has ended.
///
/// A process whose exit status is not available has not exited: otherwise there
/// would be a status.
pub fn process_exited(exit_status: Option<ExitStatus>) -> (r: Option<CockroachStartError>)
    ensures
        (match r {
            Some(error) => Some(error@),
            None => None,
        }) == (match exit_status.deep_view() {
            Some(status) => Some(exit_error(status)),
            None => None,
        }),
{
    match exit_status {
        Some(status) => Some(interpret_exit(status)),
        None => None,
    }
}

/// A process that exited with a code is reported with that code, whatever else is said
/// of it; one that was terminated by a signal, with the signal; and one of which
/// neither is known, with how its status reads.
pub proof fn law_exit(code: i32, signal: i32, other: Option<i32>, description: Seq<char>)
    ensures
        exit_error(ExitStatusView { code: Some(code), signal: other, description })
            == (StartErrorView::Exited { exit_code: code }),
        exit_error(ExitStatusView { code: None, signal: Some(signal), description })
            == (StartErrorView::Signaled { signal }),
        exit_error(ExitStatusView { code: None, signal: None, description })
            == (StartErrorView::Unknown {
            source: "process has an exit status, but no exit code nor signal: "@ + description,
            cause: None,
        }),
{
}

/// What is said of an exit status by its view is said of the status.
pub proof fn law_exit_view(status: ExitStatus)
    ensures
        status.deep_view() == (ExitStatusView {
            code: status.code,
            signal: status.signal,
            description: status.description@,
        }),
{
}

} // verus!
