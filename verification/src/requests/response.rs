//! What a backend hands back for one completion.

use vstd::prelude::*;
use super::stop_sequence::CompletionFinishReason;

verus! {

/// One completion as the backend returned it.
#[derive(Debug, Clone, PartialEq, Eq)]
pub struct CompletionResponse {
    /// The backend's identifier for the completion.
    pub id: String,
    /// The generated text.
    pub content: String,
    /// How generation ended.
    pub finish_reason: CompletionFinishReason,
    /// Tokens the prompt took.
    pub prompt_tokens: u64,
    /// Tokens that were generated.
    pub completion_tokens: u64,
}

} // verus!
