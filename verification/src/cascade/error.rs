//! What can go wrong in a cascade.

use vstd::prelude::*;
use vstd::string::*;
use crate::primitives::grammar::{ParseError, ParseErrorView};
use crate::requests::error::CompletionError;

verus! {

/// A failure of a cascade operation.
#[derive(Debug, PartialEq, Eq)]
pub enum CascadeError {
    /// The flow has no rounds.
    NoRounds,
    /// The round has no steps.
    NoSteps,
    /// The flow is not open.
    CascadeNotOpen,
    /// The flow was closed while the round at this position was not.
    RoundNotClosed(usize),
    /// The round was opened before.
    RoundAlreadyOpened,
    /// The round is not open.
    RoundNotOpen,
    /// Every step of the round has run.
    NoPendingStep,
    /// A step's request is under way.
    StepInProgress,
    /// No step's request is under way.
    NoStepInProgress,
    /// The step's request failed.
    Request(CompletionError),
    /// The step's output is not a value of its grammar.
    Parse(ParseError),
}

/// A cascade error as plain values.
pub enum CascadeErrorView {
    NoRounds,
    NoSteps,
    CascadeNotOpen,
    RoundNotClosed(usize),
    RoundAlreadyOpened,
    RoundNotOpen,
    NoPendingStep,
    StepInProgress,
    NoStepInProgress,
    Request(CompletionError),
    Parse(ParseErrorView),
}

impl View for CascadeError {
    type V = CascadeErrorView;

    open spec fn view(&self) -> CascadeErrorView {
        match self {
            CascadeError::NoRounds => CascadeErrorView::NoRounds,
            CascadeError::NoSteps => CascadeErrorView::NoSteps,
            CascadeError::CascadeNotOpen => CascadeErrorView::CascadeNotOpen,
            CascadeError::RoundNotClosed(position) => CascadeErrorView::RoundNotClosed(*position),
            CascadeError::RoundAlreadyOpened => CascadeErrorView::RoundAlreadyOpened,
            CascadeError::RoundNotOpen => CascadeErrorView::RoundNotOpen,
            CascadeError::NoPendingStep => CascadeErrorView::NoPendingStep,
            CascadeError::StepInProgress => CascadeErrorView::StepInProgress,
            CascadeError::NoStepInProgress => CascadeErrorView::NoStepInProgress,
            CascadeError::Request(e) => CascadeErrorView::Request(*e),
            CascadeError::Parse(e) => CascadeErrorView::Parse(e@),
        }
    }
}

/// The view of a result that may carry a cascade error.
pub open spec fn result_view<T>(result: Result<T, CascadeError>) -> Result<T, CascadeErrorView> {
    match result {
        Ok(value) => Ok(value),
        Err(e) => Err(e@),
    }
}

impl CascadeError {
    /// The text that `message` renders.
    pub open spec fn message_text(&self) -> Seq<char> {
        match self {
            CascadeError::NoRounds => "No rounds in cascade"@,
            CascadeError::NoSteps => "No steps in round"@,
            CascadeError::CascadeNotOpen => "Cascade is not open"@,
            CascadeError::RoundNotClosed(_) => "Cascade closed without closing its rounds"@,
            CascadeError::RoundAlreadyOpened => "Round was opened before"@,
            CascadeError::RoundNotOpen => "Round is not open"@,
            CascadeError::NoPendingStep => "No pending step in round"@,
            CascadeError::StepInProgress => "A step is in progress"@,
            CascadeError::NoStepInProgress => "No step is in progress"@,
            CascadeError::Request(e) => e.message_text(),
            CascadeError::Parse(ParseError::NotBoolean(t)) => "Not a boolean: "@ + t@,
            CascadeError::Parse(ParseError::NotAllowed(t)) => "Not an allowed string: "@ + t@,
        }
    }

    /// A line that says what went wrong.
    pub fn message(&self) -> (line: String)
        ensures
            line@ == self.message_text(),
    {
        match self {
            CascadeError::NoRounds => "No rounds in cascade".to_owned(),
            CascadeError::NoSteps => "No steps in round".to_owned(),
            CascadeError::CascadeNotOpen => "Cascade is not open".to_owned(),
            CascadeError::RoundNotClosed(_) => "Cascade closed without closing its rounds".to_owned(),
            CascadeError::RoundAlreadyOpened => "Round was opened before".to_owned(),
            CascadeError::RoundNotOpen => "Round is not open".to_owned(),
            CascadeError::NoPendingStep => "No pending step in round".to_owned(),
            CascadeError::StepInProgress => "A step is in progress".to_owned(),
            CascadeError::NoStepInProgress => "No step is in progress".to_owned(),
            CascadeError::Request(e) => e.message(),
            CascadeError::Parse(ParseError::NotBoolean(t)) => "Not a boolean: ".to_owned().concat(
                t.as_str(),
            ),
            CascadeError::Parse(ParseError::NotAllowed(t)) => "Not an allowed string: ".to_owned().concat(
                t.as_str(),
            ),
        }
    }
}

} // verus!
