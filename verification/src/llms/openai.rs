//! The configuration of an OpenAI-style backend.

use vstd::prelude::*;
use vstd::string::*;
use super::api_config::{
    authorization_entry,
    entry_views,
    optional_entry,
    push_all,
    push_authorization,
    push_valid,
    url_for,
    ApiConfig,
    HeaderEntry,
    LoggingConfig,
};
use crate::requests::stop_sequence::opt_view;

verus! {

/// The host of the API, with the version of the API as its path.
pub const OPENAI_API_HOST: &'static str = "api.openai.com/v1";

/// The header that names the organization.
pub const OPENAI_ORGANIZATION_HEADER: &'static str = "OpenAI-Organization";

/// The header that names the project.
pub const OPENAI_PROJECT_HEADER: &'static str = "OpenAI-Project";

/// How an OpenAI-style API is reached and what every request to it carries.
#[derive(Debug, Clone, PartialEq, Eq)]
pub struct OpenAIConfig {
    pub api_config: ApiConfig,
    pub logging_config: LoggingConfig,
    /// The organization to bill, where it is not the key's own.
    pub org_id: String,
    /// The project to bill, where it is not the key's own.
    pub project_id: String,
    /// Headers added to every request, after the others.
    pub extra_headers: Vec<HeaderEntry>,
}

/// The headers of a request, in the order in which they are set. A later
/// header replaces an earlier one of the same name.
pub open spec fn openai_headers(
    org_id: Seq<char>,
    project_id: Seq<char>,
    api_key: Option<Seq<char>>,
    extra: Seq<(Seq<char>, Seq<char>)>,
) -> Seq<(Seq<char>, Seq<char>)> {
    optional_entry(OPENAI_ORGANIZATION_HEADER@, org_id, org_id.len() > 0) + optional_entry(
        OPENAI_PROJECT_HEADER@,
        project_id,
        project_id.len() > 0,
    ) + authorization_entry(api_key) + extra
}

impl Default for OpenAIConfig {
    /// The public API, with the key in `OPENAI_API_KEY`, and neither
    /// organization nor project.
    fn default() -> (config: OpenAIConfig)
        ensures
            config.api_config.host@ == OPENAI_API_HOST@,
            config.api_config.port is None,
            config.api_config.api_key_env_var@ == "OPENAI_API_KEY"@,
            config.logging_config.logger_name@ == "openai"@,
            config.org_id@.len() == 0,
            config.project_id@.len() == 0,
            config.extra_headers@.len() == 0,
    {
        OpenAIConfig {
            api_config: ApiConfig {
                host: OPENAI_API_HOST.to_owned(),
                port: None,
                api_key_env_var: "OPENAI_API_KEY".to_owned(),
            },
            logging_config: LoggingConfig { logger_name: "openai".to_owned() },
            org_id: String::new(),
            project_id: String::new(),
            extra_headers: Vec::new(),
        }
    }
}

impl OpenAIConfig {
    /// The default configuration.
    pub fn new() -> (config: OpenAIConfig)
        ensures
            config.api_config.host@ == OPENAI_API_HOST@,
            config.api_config.port is None,
            config.api_config.api_key_env_var@ == "OPENAI_API_KEY"@,
            config.logging_config.logger_name@ == "openai"@,
            config.org_id@.len() == 0,
            config.project_id@.len() == 0,
            config.extra_headers@.len() == 0,
    {
        OpenAIConfig::default()
    }

    /// The same configuration for another organization.
    pub fn with_org_id(self, org_id: &str) -> (config: OpenAIConfig)
        ensures
            config.org_id@ == org_id@,
            config.api_config == self.api_config,
            config.logging_config == self.logging_config,
            config.project_id == self.project_id,
            config.extra_headers == self.extra_headers,
    {
        let mut config = self;
        config.org_id = org_id.to_owned();
        config
    }

    /// The same configuration for another project.
    pub fn with_project_id(self, project_id: &str) -> (config: OpenAIConfig)
        ensures
            config.project_id@ == project_id@,
            config.api_config == self.api_config,
            config.logging_config == self.logging_config,
            config.org_id == self.org_id,
            config.extra_headers == self.extra_headers,
    {
        let mut config = self;
        config.project_id = project_id.to_owned();
        config
    }

    /// The headers of a request, in the order in which they are set:
    /// organization and project where they are named, the authorization
    /// where a key is given, then the extra headers. A value that cannot
    /// be the value of a header leaves its header out.
    pub fn headers(&self, api_key: Option<&str>) -> (entries: Vec<HeaderEntry>)
        ensures
            entry_views(entries@) == openai_headers(
                self.org_id@,
                self.project_id@,
                match api_key {
                    Some(k) => Some(k@),
                    None => None,
                },
                entry_views(self.extra_headers@),
            ),
    {
        let mut entries: Vec<HeaderEntry> = Vec::new();
        assert(entry_views(entries@) =~= Seq::empty());
        if !self.org_id.as_str().is_empty() {
            push_valid(&mut entries, OPENAI_ORGANIZATION_HEADER, self.org_id.as_str());
        }
        if !self.project_id.as_str().is_empty() {
            push_valid(&mut entries, OPENAI_PROJECT_HEADER, self.project_id.as_str());
        }
        push_authorization(&mut entries, api_key);
        push_all(&mut entries, &self.extra_headers);
        assert(entry_views(entries@) =~= openai_headers(
            self.org_id@,
            self.project_id@,
            match api_key {
                Some(k) => Some(k@),
                None => None,
            },
            entry_views(self.extra_headers@),
        ));
        entries
    }

    /// The address of `path` on the configured host.
    pub fn url(&self, path: &str) -> (url: String)
        ensures
            url@ == url_for(self.api_config.host@, opt_view(self.api_config.port), path@),
    {
        self.api_config.url(path)
    }
}

} // verus!
