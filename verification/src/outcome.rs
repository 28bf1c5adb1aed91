//! What becomes of the process once the host's run loop has returned.

use vstd::prelude::*;
use vstd::string::StringExecFns;

verus! {

/// The status of a process whose run ended in good order.
pub const EXIT_COMPLETED: i32 = 0;

/// The status of a process that could not run its host. It is the status
/// that a Rust process ends with when its main thread panics, so launchers
/// and supervisors see a crash.
pub const EXIT_FATAL: i32 = 101;

/// How the run ended.
#[derive(Debug, PartialEq, Eq)]
pub enum Outcome {
    /// The host ran and has exited; nothing is left to do.
    Completed,
    /// The host could not be run. The process ends at once, with this
    /// diagnostic; nothing is retried and nothing else is started.
    Fatal(String),
}

/// An `Outcome` with its diagnostic as a sequence of characters.
pub enum OutcomeView {
    Completed,
    Fatal(Seq<char>),
}

impl View for Outcome {
    type V = OutcomeView;

    open spec fn view(&self) -> OutcomeView {
        match self {
            Outcome::Completed => OutcomeView::Completed,
            Outcome::Fatal(message) => OutcomeView::Fatal(message@),
        }
    }
}

/// The diagnostic for a failure: a fixed headline, a colon and a space, and
/// then what the host said of it.
pub open spec fn diagnostic_text(detail: Seq<char>) -> Seq<char> {
    "error while running Tauri application"@ + ": "@ + detail
}

/// The outcome that follows from the run loop's result. Any failure is
/// fatal, whatever its detail.
pub open spec fn outcome_of(result: Result<(), Seq<char>>) -> OutcomeView {
    match result {
        Ok(_) => OutcomeView::Completed,
        Err(detail) => OutcomeView::Fatal(diagnostic_text(detail)),
    }
}

/// The status with which the process ends after an outcome.
pub open spec fn exit_status_of(outcome: OutcomeView) -> int {
    match outcome {
        OutcomeView::Completed => EXIT_COMPLETED as int,
        OutcomeView::Fatal(_) => EXIT_FATAL as int,
    }
}

/// Composes the diagnostic for a failure of which the host said `detail`.
pub fn diagnostic(detail: &str) -> (text: String)
    ensures
        text@ == diagnostic_text(detail@),
{
    let mut text = String::from_str("error while running Tauri application");
    text.append(": ");
    text.append(detail);
    text
}

/// Decides how the run ended from what the host's run loop returned: `Ok`
/// when the host ran and exited, `Err` with the host's account of the
/// failure when it could not run.
pub fn conclude(result: Result<(), String>) -> (outcome: Outcome)
    ensures
        outcome@ == outcome_of(
            match result {
                Ok(_) => Ok(()),
                Err(detail) => Err(detail@),
            },
        ),
{
    match result {
        Ok(_) => Outcome::Completed,
        Err(detail) => Outcome::Fatal(diagnostic(detail.as_str())),
    }
}

impl Outcome {
    /// The status with which the process is to end.
    pub fn exit_status(&self) -> (status: i32)
        ensures
            status == exit_status_of(self@),
    {
        match self {
            Outcome::Completed => EXIT_COMPLETED,
            Outcome::Fatal(_) => EXIT_FATAL,
        }
    }
}

/// A run loop that returns an error ends the process with a status other
/// than zero, and one that returns in good order ends it with zero.
pub proof fn lemma_status_is_nonzero_exactly_on_failure(result: Result<(), Seq<char>>)
    ensures
        result is Err <==> outcome_of(result) is Fatal,
        result is Err <==> exit_status_of(outcome_of(result)) != 0,
{
}

} // verus!
