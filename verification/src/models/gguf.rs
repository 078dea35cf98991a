//! Loading a local model from a GGUF file.
//!
//! Files are not read here. The caller reads the model file's metadata
//! and, where a tokenizer configuration is given, the chat template in
//! it, and hands both over.

use vstd::prelude::*;
use vstd::string::*;
use std::sync::Arc;
use super::api_model::LLMModelBase;
use super::tokenizer::{Tokenizer, TokenizerView};
use crate::requests::stop_sequence::opt_view;
use crate::text::clone_opt;

verus! {

/// What the caller read from a model file.
#[derive(Debug, Clone, PartialEq, Eq)]
pub struct LocalLLMMetadata {
    /// The context length that the file declares.
    pub context_length: u64,
    /// Whether the file carries a tokenizer.
    pub has_tokenizer: bool,
    /// The chat template that the file carries, if any.
    pub chat_template: Option<String>,
}

/// A model that runs on this machine.
#[derive(Debug, Clone, PartialEq, Eq)]
pub struct LocalLLMModel {
    pub model_base: LLMModelBase,
    pub chat_template: String,
    pub model_metadata: LocalLLMMetadata,
    pub local_model_path: String,
}

/// Why a local model could not be loaded.
#[derive(Debug, Clone, Copy, PartialEq, Eq, Structural)]
pub enum LoadError {
    /// The loader has no path to the model file.
    QuantFilePathNotSet,
    /// Neither a tokenizer file is given nor does the model file carry a tokenizer.
    NoTokenizer,
    /// Neither the tokenizer configuration nor the model file carries a chat template.
    NoChatTemplate,
}

impl LoadError {
    /// The text that `message` renders.
    pub open spec fn message_text(&self) -> Seq<char> {
        match self {
            LoadError::QuantFilePathNotSet => "local_quant_file_path must be set"@,
            LoadError::NoTokenizer => "no tokenizer file given and none in the model file"@,
            LoadError::NoChatTemplate => "no chat template in the tokenizer configuration or the model file"@,
        }
    }

    /// A line that says what is missing.
    pub fn message(&self) -> (line: String)
        ensures
            line@ == self.message_text(),
    {
        match self {
            LoadError::QuantFilePathNotSet => "local_quant_file_path must be set".to_owned(),
            LoadError::NoTokenizer => "no tokenizer file given and none in the model file".to_owned(),
            LoadError::NoChatTemplate => "no chat template in the tokenizer configuration or the model file".to_owned(),
        }
    }
}

/// The paths from which a local model is loaded.
#[derive(Debug, Clone, PartialEq, Eq)]
pub struct GgufLocalLoader {
    pub local_quant_file_path: Option<String>,
    pub local_config_path: Option<String>,
    pub local_tokenizer_path: Option<String>,
    pub local_tokenizer_config_path: Option<String>,
    pub model_id: Option<String>,
}

impl Default for GgufLocalLoader {
    /// No paths and no model id.
    fn default() -> (loader: GgufLocalLoader)
        ensures
            loader.local_quant_file_path is None,
            loader.local_config_path is None,
            loader.local_tokenizer_path is None,
            loader.local_tokenizer_config_path is None,
            loader.model_id is None,
    {
        GgufLocalLoader {
            local_quant_file_path: None,
            local_config_path: None,
            local_tokenizer_path: None,
            local_tokenizer_config_path: None,
            model_id: None,
        }
    }
}

/// What was read from a model file, as plain values.
pub struct MetadataView {
    pub context_length: u64,
    pub has_tokenizer: bool,
    pub chat_template: Option<Seq<char>>,
}

impl View for LocalLLMMetadata {
    type V = MetadataView;

    open spec fn view(&self) -> MetadataView {
        MetadataView {
            context_length: self.context_length,
            has_tokenizer: self.has_tokenizer,
            chat_template: opt_view(self.chat_template),
        }
    }
}

/// A loaded model as plain values.
pub struct LocalModelView {
    pub model_id: Seq<char>,
    pub model_ctx_size: u64,
    pub inference_ctx_size: u64,
    pub tokenizer: TokenizerView,
    pub chat_template: Seq<char>,
    pub model_metadata: MetadataView,
    pub local_model_path: Seq<char>,
}

impl View for LocalLLMModel {
    type V = LocalModelView;

    open spec fn view(&self) -> LocalModelView {
        LocalModelView {
            model_id: self.model_base.model_id@,
            model_ctx_size: self.model_base.model_ctx_size,
            inference_ctx_size: self.model_base.inference_ctx_size,
            tokenizer: (*self.model_base.tokenizer)@,
            chat_template: self.chat_template@,
            model_metadata: self.model_metadata@,
            local_model_path: self.local_model_path@,
        }
    }
}

/// The tokenizer of a local model: the file that the loader names, else
/// the one that the model file carries.
pub open spec fn tokenizer_for(tokenizer_path: Option<Seq<char>>, has_tokenizer: bool) -> Option<
    TokenizerView,
> {
    match tokenizer_path {
        Some(path) => Some(TokenizerView::File(path)),
        None => if has_tokenizer {
            Some(TokenizerView::Embedded)
        } else {
            None
        },
    }
}

/// The chat template of a local model: the one from the tokenizer
/// configuration, else the one that the model file carries.
pub open spec fn template_for(
    config_template: Option<Seq<char>>,
    embedded: Option<Seq<char>>,
) -> Option<Seq<char>> {
    match config_template {
        Some(t) => Some(t),
        None => embedded,
    }
}

/// What loading gives.
pub open spec fn loaded(
    loader: GgufLocalLoader,
    metadata: LocalLLMMetadata,
    config_template: Option<Seq<char>>,
) -> Result<LocalModelView, LoadError> {
    match loader.local_quant_file_path {
        None => Err(LoadError::QuantFilePathNotSet),
        Some(path) => match tokenizer_for(
            opt_view(loader.local_tokenizer_path),
            metadata.has_tokenizer,
        ) {
            None => Err(LoadError::NoTokenizer),
            Some(tokenizer) => match template_for(
                config_template,
                opt_view(metadata.chat_template),
            ) {
                None => Err(LoadError::NoChatTemplate),
                Some(template) => Ok(
                    LocalModelView {
                        model_id: match loader.model_id {
                            Some(id) => id@,
                            None => path@,
                        },
                        model_ctx_size: metadata.context_length,
                        inference_ctx_size: metadata.context_length,
                        tokenizer,
                        chat_template: template,
                        model_metadata: metadata@,
                        local_model_path: path@,
                    },
                ),
            },
        },
    }
}

impl GgufLocalLoader {
    /// Puts a local model together from what the caller read.
    ///
    /// The model file's path has to be set. The model is named by the
    /// loader's model id, else by that path. Both context sizes are the
    /// length that the metadata declares. `config_template` is the chat
    /// template of the tokenizer configuration, where the caller read one.
    pub fn load(&mut self, model_metadata: LocalLLMMetadata, config_template: Option<String>) -> (model:
        Result<LocalLLMModel, LoadError>)
        ensures
            *final(self) == *old(self),
            match loaded(*old(self), model_metadata, opt_view(config_template)) {
                Err(e) => model == Err::<LocalLLMModel, LoadError>(e),
                Ok(view) => model matches Ok(m) && m@ == view && m.model_metadata
                    == model_metadata,
            },
    {
        let local_model_path = match &self.local_quant_file_path {
            Some(path) => path.clone(),
            None => {
                return Err(LoadError::QuantFilePathNotSet);
            },
        };
        let model_id = match &self.model_id {
            Some(id) => id.clone(),
            None => local_model_path.clone(),
        };
        let tokenizer = match &self.local_tokenizer_path {
            Some(path) => Tokenizer::File(path.clone()),
            None => {
                if model_metadata.has_tokenizer {
                    Tokenizer::Embedded
                } else {
                    return Err(LoadError::NoTokenizer);
                }
            },
        };
        let chat_template = match config_template {
            Some(t) => t,
            None => match clone_opt(&model_metadata.chat_template) {
                Some(t) => t,
                None => {
                    return Err(LoadError::NoChatTemplate);
                },
            },
        };
        Ok(
            LocalLLMModel {
                model_base: LLMModelBase {
                    model_id,
                    model_ctx_size: model_metadata.context_length,
                    inference_ctx_size: model_metadata.context_length,
                    tokenizer: Arc::new(tokenizer),
                },
                chat_template,
                model_metadata,
                local_model_path,
            },
        )
    }
}

} // verus!
