//! The ways a completion request can fail.

use vstd::prelude::*;
use vstd::string::*;
use super::config::RequestTokenLimitError;

verus! {

/// A failure of a completion request.
///
/// The first kinds end a request at once; the engine retries after the others.
#[derive(Debug, PartialEq, Eq)]
pub enum CompletionError {
    /// The request could not be put together.
    RequestBuilderError(String),
    /// The transport to a remote backend failed.
    ClientError(String),
    /// A local backend failed.
    LocalClientError(String),
    /// The output budget could not be set or grown.
    RequestTokenLimitError(RequestTokenLimitError),
    /// The backend ended a response for a reason the engine does not know.
    StopReasonUnsupported(String),
    /// The retry limit was reached; `errors` holds what each attempt failed with, in order.
    ExceededRetryCount { message: String, errors: Vec<CompletionError> },
    /// The response had no content.
    ResponseContentEmpty,
    /// The output budget ran out and the request is tried again with a larger one.
    StopLimitRetry,
    /// A marker was required and the response ended on none.
    NoRequiredStopSequence,
    /// A marker was required and the response ended on another one.
    NonMatchingStopSequence(String),
    /// A payload could not be encoded or decoded.
    JsonError(String),
}

impl CompletionError {
    /// Whether the engine gives up on a request when a backend answers with this error.
    pub open spec fn is_fatal(&self) -> bool {
        self is RequestBuilderError || self is StopReasonUnsupported || self is ClientError
    }

    /// Whether the engine gives up on a request when a backend answers with this error.
    pub fn fatal(&self) -> (fatal: bool)
        ensures
            fatal == self.is_fatal(),
    {
        match self {
            CompletionError::RequestBuilderError(_) => true,
            CompletionError::StopReasonUnsupported(_) => true,
            CompletionError::ClientError(_) => true,
            _ => false,
        }
    }

    /// The text that `message` renders.
    pub open spec fn message_text(&self) -> Seq<char> {
        match self {
            CompletionError::RequestBuilderError(detail) => "RequestBuilderError: "@ + detail@,
            CompletionError::ClientError(detail) => "ClientError: "@ + detail@,
            CompletionError::LocalClientError(detail) => "LocalClientError: "@ + detail@,
            CompletionError::RequestTokenLimitError(e) => "RequestTokenLimitError: "@
                + e.message_text(),
            CompletionError::StopReasonUnsupported(detail) => "StopReasonUnsupported: "@
                + detail@,
            CompletionError::ExceededRetryCount { .. } => "ExceededRetryCount"@,
            CompletionError::ResponseContentEmpty => "ResponseContentEmpty: Response had no content"@,
            CompletionError::StopLimitRetry => "StopLimitRetry: stopped_limit == true && retry_stopped_limit == true"@,
            CompletionError::NoRequiredStopSequence => "NoRequiredStopSequence: One of the sequences is required, but response has has None."@,
            CompletionError::NonMatchingStopSequence(word) => "NonMatchingStopSequence: One of the sequences is required, but response's stop sequence was: "@
                + word@ + "."@,
            CompletionError::JsonError(detail) => "JsonError: "@ + detail@,
        }
    }

    /// A line that names the kind of failure and its detail.
    pub fn message(&self) -> (line: String)
        ensures
            line@ == self.message_text(),
    {
        match self {
            CompletionError::RequestBuilderError(detail) => "RequestBuilderError: ".to_owned().concat(
                detail.as_str(),
            ),
            CompletionError::ClientError(detail) => "ClientError: ".to_owned().concat(
                detail.as_str(),
            ),
            CompletionError::LocalClientError(detail) => "LocalClientError: ".to_owned().concat(
                detail.as_str(),
            ),
            CompletionError::RequestTokenLimitError(e) => {
                let inner = e.message();
                "RequestTokenLimitError: ".to_owned().concat(inner.as_str())
            },
            CompletionError::StopReasonUnsupported(detail) => "StopReasonUnsupported: ".to_owned().concat(
                detail.as_str(),
            ),
            CompletionError::ExceededRetryCount { .. } => "ExceededRetryCount".to_owned(),
            CompletionError::ResponseContentEmpty => "ResponseContentEmpty: Response had no content".to_owned(),
            CompletionError::StopLimitRetry => "StopLimitRetry: stopped_limit == true && retry_stopped_limit == true".to_owned(),
            CompletionError::NoRequiredStopSequence => "NoRequiredStopSequence: One of the sequences is required, but response has has None.".to_owned(),
            CompletionError::NonMatchingStopSequence(word) => "NonMatchingStopSequence: One of the sequences is required, but response's stop sequence was: ".to_owned().concat(
                word.as_str(),
            ).concat("."),
            CompletionError::JsonError(detail) => "JsonError: ".to_owned().concat(detail.as_str()),
        }
    }
}

} // verus!
