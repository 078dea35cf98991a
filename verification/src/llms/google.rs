//! The configuration of a Google backend, and the builder that chooses its model.

use vstd::prelude::*;
use vstd::string::*;
use super::api_config::{
    authorization_entry,
    entry_views,
    push_all,
    push_authorization,
    url_for,
    ApiConfig,
    HeaderEntry,
    LoggingConfig,
};
use crate::models::api_model::ApiLLMModel;
use crate::models::google::{gemini_2_5_flash_model, GoogleModelTrait};
use crate::requests::stop_sequence::opt_view;

verus! {

/// The address of the API that speaks the OpenAI protocol for Gemini models.
pub const GOOGLE_API_BASE: &'static str =
    "https://generativelanguage.googleapis.com/v1beta/openai";

/// How the Google API is reached and what every request to it carries.
#[derive(Debug, Clone, PartialEq, Eq)]
pub struct GoogleConfig {
    pub api_config: ApiConfig,
    pub logging_config: LoggingConfig,
    /// Headers added to every request, after the authorization.
    pub extra_headers: Vec<HeaderEntry>,
}

impl Default for GoogleConfig {
    /// The public API, with the key in `GEMINI_API_KEY`.
    fn default() -> (config: GoogleConfig)
        ensures
            config.api_config.host@ == GOOGLE_API_BASE@,
            config.api_config.port is None,
            config.api_config.api_key_env_var@ == "GEMINI_API_KEY"@,
            config.logging_config.logger_name@ == "gemini"@,
            config.extra_headers@.len() == 0,
    {
        GoogleConfig {
            api_config: ApiConfig {
                host: GOOGLE_API_BASE.to_owned(),
                port: None,
                api_key_env_var: "GEMINI_API_KEY".to_owned(),
            },
            logging_config: LoggingConfig { logger_name: "gemini".to_owned() },
            extra_headers: Vec::new(),
        }
    }
}

impl GoogleConfig {
    /// The default configuration.
    pub fn new() -> (config: GoogleConfig)
        ensures
            config.api_config.host@ == GOOGLE_API_BASE@,
            config.api_config.port is None,
            config.api_config.api_key_env_var@ == "GEMINI_API_KEY"@,
            config.logging_config.logger_name@ == "gemini"@,
            config.extra_headers@.len() == 0,
    {
        GoogleConfig::default()
    }

    /// The headers of a request, in the order in which they are set: the
    /// authorization where a key is given and makes a valid value, then
    /// the extra headers.
    pub fn headers(&self, api_key: Option<&str>) -> (entries: Vec<HeaderEntry>)
        ensures
            entry_views(entries@) == authorization_entry(
                match api_key {
                    Some(k) => Some(k@),
                    None => None,
                },
            ) + entry_views(self.extra_headers@),
    {
        let mut entries: Vec<HeaderEntry> = Vec::new();
        assert(entry_views(entries@) =~= Seq::empty());
        push_authorization(&mut entries, api_key);
        push_all(&mut entries, &self.extra_headers);
        assert(entry_views(entries@) =~= authorization_entry(
            match api_key {
                Some(k) => Some(k@),
                None => None,
            },
        ) + entry_views(self.extra_headers@));
        entries
    }

    /// The address of `path` on the configured host.
    pub fn url(&self, path: &str) -> (url: String)
        ensures
            url@ == url_for(self.api_config.host@, opt_view(self.api_config.port), path@),
    {
        self.api_config.url(path)
    }
}

/// Puts a Google backend together: its configuration and its model.
#[derive(Debug, Clone, PartialEq, Eq)]
pub struct GoogleBackendBuilder {
    pub config: GoogleConfig,
    pub model: ApiLLMModel,
}

impl Default for GoogleBackendBuilder {
    /// The default configuration with Gemini 2.5 Flash.
    fn default() -> (builder: GoogleBackendBuilder)
        ensures
            builder.model@ == gemini_2_5_flash_model(),
            builder.config.api_config.host@ == GOOGLE_API_BASE@,
            builder.config.api_config.port is None,
            builder.config.api_config.api_key_env_var@ == "GEMINI_API_KEY"@,
            builder.config.extra_headers@.len() == 0,
    {
        GoogleBackendBuilder {
            config: GoogleConfig::default(),
            model: ApiLLMModel::gemini_2_5_flash(),
        }
    }
}

impl GoogleBackendBuilder {
    /// The API configuration, to be changed.
    pub fn api_base_config_mut(&mut self) -> (config: &mut ApiConfig)
        ensures
            *config == old(self).config.api_config,
            *final(self) == (GoogleBackendBuilder {
                config: GoogleConfig { api_config: *final(config), ..old(self).config },
                ..*old(self)
            }),
    {
        &mut self.config.api_config
    }

    /// The API configuration.
    pub fn api_config(&self) -> (config: &ApiConfig)
        ensures
            *config == self.config.api_config,
    {
        &self.config.api_config
    }

    /// The logging configuration, to be changed.
    pub fn logging_config_mut(&mut self) -> (config: &mut LoggingConfig)
        ensures
            *config == old(self).config.logging_config,
            *final(self) == (GoogleBackendBuilder {
                config: GoogleConfig { logging_config: *final(config), ..old(self).config },
                ..*old(self)
            }),
    {
        &mut self.config.logging_config
    }
}

impl GoogleModelTrait for GoogleBackendBuilder {
    open spec fn held_model(&self) -> ApiLLMModel {
        self.model
    }

    fn model(&mut self) -> (model: &mut ApiLLMModel) {
        &mut self.model
    }
}

} // verus!
