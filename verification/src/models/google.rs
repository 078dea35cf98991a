//! The Gemini models.

use vstd::prelude::*;
use vstd::string::*;
use std::sync::Arc;
use super::api_model::{ApiLLMModel, ApiModelView, LLMModelBase};
use super::tokenizer::{Tokenizer, TokenizerView};
use crate::text::{has_prefix, starts_with};

verus! {

/// A Gemini model: its tokens are counted with the encoding of `gpt-4`,
/// a message adds three tokens, and names are not counted.
pub open spec fn gemini_model(
    model_id: Seq<char>,
    model_ctx_size: u64,
    inference_ctx_size: u64,
    cost_per_m_in_tokens: u64,
    cost_per_m_out_tokens: u64,
) -> ApiModelView {
    ApiModelView {
        model_id,
        model_ctx_size,
        inference_ctx_size,
        tokenizer: TokenizerView::Tiktoken("gpt-4"@),
        cost_per_m_in_tokens,
        cost_per_m_out_tokens,
        tokens_per_message: 3,
        tokens_per_name: None,
    }
}

/// Gemini 2.5 Pro.
pub open spec fn gemini_2_5_pro_model() -> ApiModelView {
    gemini_model("gemini-2.5-pro"@, 1_048_576, 65_536, 1250, 10000)
}

/// Gemini 2.5 Flash.
pub open spec fn gemini_2_5_flash_model() -> ApiModelView {
    gemini_model("gemini-2.5-flash"@, 1_048_576, 65_536, 300, 2500)
}

/// Gemini 2.5 Flash Lite.
pub open spec fn gemini_2_5_flash_lite_model() -> ApiModelView {
    gemini_model("gemini-2.5-flash-lite-preview-06-17"@, 1_000_000, 64_000, 100, 400)
}

/// Gemini 2.0 Flash.
pub open spec fn gemini_2_0_flash_model() -> ApiModelView {
    gemini_model("gemini-2.0-flash"@, 1_048_576, 8_192, 100, 400)
}

/// Gemini 2.0 Flash Lite.
pub open spec fn gemini_2_0_flash_lite_model() -> ApiModelView {
    gemini_model("gemini-2.0-flash-lite"@, 1_048_576, 8_192, 75, 300)
}

/// A Gemini model that is not listed: it gets the sizes and prices of Gemini 2.5 Flash.
pub open spec fn custom_gemini_model(model_id: Seq<char>) -> ApiModelView {
    gemini_model(model_id, 1_048_576, 65_536, 300, 2500)
}

/// The model that a model id names. Every id that begins like the id of
/// Flash Lite 2.5 names that model; an id that is not listed names a
/// custom model.
pub open spec fn google_model(model_id: Seq<char>) -> ApiModelView {
    if model_id == "gemini-2.5-pro"@ {
        gemini_2_5_pro_model()
    } else if model_id == "gemini-2.5-flash"@ {
        gemini_2_5_flash_model()
    } else if has_prefix(model_id, "gemini-2.5-flash-lite"@) {
        gemini_2_5_flash_lite_model()
    } else if model_id == "gemini-2.0-flash"@ {
        gemini_2_0_flash_model()
    } else if model_id == "gemini-2.0-flash-lite"@ {
        gemini_2_0_flash_lite_model()
    } else {
        custom_gemini_model(model_id)
    }
}

/// The tokenizer of a Gemini model: the encoding of `gpt-4`, whatever the model.
#[inline]
pub fn model_tokenizer(_model_id: &str) -> (tokenizer: Arc<Tokenizer>)
    ensures
        (*tokenizer)@ == TokenizerView::Tiktoken("gpt-4"@),
{
    Arc::new(Tokenizer::Tiktoken("gpt-4".to_owned()))
}

fn build(
    model_id: &str,
    model_ctx_size: u64,
    inference_ctx_size: u64,
    cost_per_m_in_tokens: u64,
    cost_per_m_out_tokens: u64,
) -> (model: ApiLLMModel)
    ensures
        model@ == gemini_model(
            model_id@,
            model_ctx_size,
            inference_ctx_size,
            cost_per_m_in_tokens,
            cost_per_m_out_tokens,
        ),
{
    let model_id = model_id.to_owned();
    let tokenizer = model_tokenizer(model_id.as_str());
    ApiLLMModel {
        model_base: LLMModelBase { model_id, model_ctx_size, inference_ctx_size, tokenizer },
        cost_per_m_in_tokens,
        cost_per_m_out_tokens,
        tokens_per_message: 3,
        tokens_per_name: None,
    }
}

impl ApiLLMModel {
    /// The model that `model_id` names.
    pub fn google_model_from_model_id(model_id: &str) -> (model: ApiLLMModel)
        ensures
            model@ == google_model(model_id@),
    {
        let id = model_id.to_owned();
        if id == "gemini-2.5-pro".to_owned() {
            Self::gemini_2_5_pro()
        } else if id == "gemini-2.5-flash".to_owned() {
            Self::gemini_2_5_flash()
        } else if starts_with(model_id, "gemini-2.5-flash-lite") {
            Self::gemini_2_5_flash_lite()
        } else if id == "gemini-2.0-flash".to_owned() {
            Self::gemini_2_0_flash()
        } else if id == "gemini-2.0-flash-lite".to_owned() {
            Self::gemini_2_0_flash_lite()
        } else {
            Self::gemini(model_id)
        }
    }

    /// Gemini 2.5 Pro.
    pub fn gemini_2_5_pro() -> (model: ApiLLMModel)
        ensures
            model@ == gemini_2_5_pro_model(),
    {
        build("gemini-2.5-pro", 1_048_576, 65_536, 1250, 10000)
    }

    /// Gemini 2.5 Flash.
    pub fn gemini_2_5_flash() -> (model: ApiLLMModel)
        ensures
            model@ == gemini_2_5_flash_model(),
    {
        build("gemini-2.5-flash", 1_048_576, 65_536, 300, 2500)
    }

    /// Gemini 2.5 Flash Lite.
    pub fn gemini_2_5_flash_lite() -> (model: ApiLLMModel)
        ensures
            model@ == gemini_2_5_flash_lite_model(),
    {
        build("gemini-2.5-flash-lite-preview-06-17", 1_000_000, 64_000, 100, 400)
    }

    /// Gemini 2.0 Flash.
    pub fn gemini_2_0_flash() -> (model: ApiLLMModel)
        ensures
            model@ == gemini_2_0_flash_model(),
    {
        build("gemini-2.0-flash", 1_048_576, 8_192, 100, 400)
    }

    /// Gemini 2.0 Flash Lite.
    pub fn gemini_2_0_flash_lite() -> (model: ApiLLMModel)
        ensures
            model@ == gemini_2_0_flash_lite_model(),
    {
        build("gemini-2.0-flash-lite", 1_048_576, 8_192, 75, 300)
    }

    /// A Gemini model that is not listed, under the id given.
    pub fn gemini(model_id: &str) -> (model: ApiLLMModel)
        ensures
            model@ == custom_gemini_model(model_id@),
    {
        build(model_id, 1_048_576, 65_536, 300, 2500)
    }
}

/// A builder that holds a model and lets a caller choose a Gemini model for it.
pub trait GoogleModelTrait: Sized {
    /// The model that the builder holds.
    spec fn held_model(&self) -> ApiLLMModel;

    /// The model that the builder holds, to be replaced.
    fn model(&mut self) -> (model: &mut ApiLLMModel)
        ensures
            *model == old(self).held_model(),
            final(self).held_model() == *final(model),
    ;

    /// Sets the model by its id.
    fn model_id_str(self, model_id: &str) -> (builder: Self)
        ensures
            builder.held_model()@ == google_model(model_id@),
    {
        let mut builder = self;
        *builder.model() = ApiLLMModel::google_model_from_model_id(model_id);
        builder
    }

    /// Uses Gemini 2.5 Pro.
    fn gemini_2_5_pro(self) -> (builder: Self)
        ensures
            builder.held_model()@ == gemini_2_5_pro_model(),
    {
        let mut builder = self;
        *builder.model() = ApiLLMModel::gemini_2_5_pro();
        builder
    }

    /// Uses Gemini 2.5 Flash.
    fn gemini_2_5_flash(self) -> (builder: Self)
        ensures
            builder.held_model()@ == gemini_2_5_flash_model(),
    {
        let mut builder = self;
        *builder.model() = ApiLLMModel::gemini_2_5_flash();
        builder
    }

    /// Uses Gemini 2.5 Flash Lite.
    fn gemini_2_5_flash_lite(self) -> (builder: Self)
        ensures
            builder.held_model()@ == gemini_2_5_flash_lite_model(),
    {
        let mut builder = self;
        *builder.model() = ApiLLMModel::gemini_2_5_flash_lite();
        builder
    }

    /// Uses Gemini 2.0 Flash.
    fn gemini_2_0_flash(self) -> (builder: Self)
        ensures
            builder.held_model()@ == gemini_2_0_flash_model(),
    {
        let mut builder = self;
        *builder.model() = ApiLLMModel::gemini_2_0_flash();
        builder
    }

    /// Uses Gemini 2.0 Flash Lite.
    fn gemini_2_0_flash_lite(self) -> (builder: Self)
        ensures
            builder.held_model()@ == gemini_2_0_flash_lite_model(),
    {
        let mut builder = self;
        *builder.model() = ApiLLMModel::gemini_2_0_flash_lite();
        builder
    }

    /// Uses a Gemini model that is not listed.
    fn gemini(self, model_id: &str) -> (builder: Self)
        ensures
            builder.held_model()@ == custom_gemini_model(model_id@),
    {
        let mut builder = self;
        *builder.model() = ApiLLMModel::gemini(model_id);
        builder
    }
}

} // verus!
