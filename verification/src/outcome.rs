//! How the process goes on after an operation of the host has returned.

use vstd::prelude::*;
use vstd::string::StringExecFns;

verus! {

/// What follows an operation of the host. There is no third way: no retry and
/// no degraded mode.
#[derive(Debug, PartialEq, Eq)]
pub enum Outcome {
    /// The operation succeeded and the application goes on.
    Continue,
    /// The operation failed: the process ends abnormally with this diagnostic.
    Abort(String),
}

/// What an [`Outcome`] is, as plain mathematical values.
pub enum OutcomeView {
    Continue,
    Abort(Seq<char>),
}

impl View for Outcome {
    type V = OutcomeView;

    open spec fn view(&self) -> OutcomeView {
        match self {
            Outcome::Continue => OutcomeView::Continue,
            Outcome::Abort(text) => OutcomeView::Abort(text@),
        }
    }
}

/// The outcome that a result of the host calls for. Success goes on. A failure
/// aborts, and its diagnostic is `context`, which says what was being done,
/// followed by the cause that the host gave.
pub open spec fn judged(context: Seq<char>, result: Result<(), String>) -> OutcomeView {
    match result {
        Ok(_) => OutcomeView::Continue,
        Err(cause) => OutcomeView::Abort(context + cause@),
    }
}

/// Judges what an operation of the host returned.
pub fn judge(context: &str, result: Result<(), String>) -> (outcome: Outcome)
    ensures
        outcome is Abort <==> result is Err,
        outcome@ == judged(context@, result),
{
    match result {
        Ok(_) => Outcome::Continue,
        Err(cause) => Outcome::Abort(String::from_str(context).concat(cause.as_str())),
    }
}

} // verus!
