//! A model that is served over an API.

use vstd::prelude::*;
use vstd::string::*;
use std::sync::Arc;
use super::tokenizer::{Tokenizer, TokenizerView};

verus! {

/// What every model has: a name, its context sizes and its tokenizer.
#[derive(Debug, Clone, PartialEq, Eq)]
pub struct LLMModelBase {
    pub model_id: String,
    /// Tokens the model can attend to, prompt and output together.
    pub model_ctx_size: u64,
    /// Most tokens the model generates in one response.
    pub inference_ctx_size: u64,
    pub tokenizer: Arc<Tokenizer>,
}

/// A model behind an API, with what its use costs.
#[derive(Debug, Clone, PartialEq, Eq)]
pub struct ApiLLMModel {
    pub model_base: LLMModelBase,
    /// Price of a million input tokens, in thousandths of a dollar.
    pub cost_per_m_in_tokens: u64,
    /// Price of a million output tokens, in thousandths of a dollar.
    pub cost_per_m_out_tokens: u64,
    /// Tokens that every message adds to a prompt.
    pub tokens_per_message: u32,
    /// Tokens that a name adds to a message, where the API counts them.
    pub tokens_per_name: Option<i32>,
}

/// An API model as plain values.
pub struct ApiModelView {
    pub model_id: Seq<char>,
    pub model_ctx_size: u64,
    pub inference_ctx_size: u64,
    pub tokenizer: TokenizerView,
    pub cost_per_m_in_tokens: u64,
    pub cost_per_m_out_tokens: u64,
    pub tokens_per_message: u32,
    pub tokens_per_name: Option<i32>,
}

impl View for ApiLLMModel {
    type V = ApiModelView;

    open spec fn view(&self) -> ApiModelView {
        ApiModelView {
            model_id: self.model_base.model_id@,
            model_ctx_size: self.model_base.model_ctx_size,
            inference_ctx_size: self.model_base.inference_ctx_size,
            tokenizer: (*self.model_base.tokenizer)@,
            cost_per_m_in_tokens: self.cost_per_m_in_tokens,
            cost_per_m_out_tokens: self.cost_per_m_out_tokens,
            tokens_per_message: self.tokens_per_message,
            tokens_per_name: self.tokens_per_name,
        }
    }
}

} // verus!
