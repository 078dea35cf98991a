use alith_engine::llms::api_config::ApiConfig;
use alith_engine::llms::google::{GoogleBackendBuilder, GoogleConfig, GOOGLE_API_BASE};
use alith_engine::llms::openai::{OpenAIConfig, OPENAI_API_HOST};
use alith_engine::models::api_model::ApiLLMModel;
use alith_engine::models::gguf::{GgufLocalLoader, LoadError, LocalLLMMetadata};
use alith_engine::models::google::{model_tokenizer, GoogleModelTrait};
use alith_engine::models::tokenizer::Tokenizer;
use alith_engine::tools::search::{SearchError, SearchProvider, SearchResult};

fn facts(model: &ApiLLMModel) -> (&str, u64, u64, u64, u64) {
    (
        model.model_base.model_id.as_str(),
        model.model_base.model_ctx_size,
        model.model_base.inference_ctx_size,
        model.cost_per_m_in_tokens,
        model.cost_per_m_out_tokens,
    )
}

fn metadata() -> LocalLLMMetadata {
    LocalLLMMetadata {
        context_length: 8192,
        has_tokenizer: true,
        chat_template: Some("embedded".to_string()),
    }
}

#[test]
fn gemini_models_have_their_sizes_and_prices() {
    assert_eq!(
        facts(&ApiLLMModel::gemini_2_5_pro()),
        ("gemini-2.5-pro", 1_048_576, 65_536, 1250, 10000)
    );
    assert_eq!(
        facts(&ApiLLMModel::gemini_2_5_flash()),
        ("gemini-2.5-flash", 1_048_576, 65_536, 300, 2500)
    );
    assert_eq!(
        facts(&ApiLLMModel::gemini_2_5_flash_lite()),
        ("gemini-2.5-flash-lite-preview-06-17", 1_000_000, 64_000, 100, 400)
    );
    assert_eq!(
        facts(&ApiLLMModel::gemini_2_0_flash()),
        ("gemini-2.0-flash", 1_048_576, 8_192, 100, 400)
    );
    assert_eq!(
        facts(&ApiLLMModel::gemini_2_0_flash_lite()),
        ("gemini-2.0-flash-lite", 1_048_576, 8_192, 75, 300)
    );
    assert_eq!(
        facts(&ApiLLMModel::gemini("gemini-exp")),
        ("gemini-exp", 1_048_576, 65_536, 300, 2500)
    );
    let model = ApiLLMModel::gemini_2_5_pro();
    assert_eq!(model.tokens_per_message, 3);
    assert_eq!(model.tokens_per_name, None);
    assert_eq!(*model.model_base.tokenizer, Tokenizer::Tiktoken("gpt-4".to_string()));
}

#[test]
fn model_ids_name_their_models() {
    let from = ApiLLMModel::google_model_from_model_id;
    assert_eq!(from("gemini-2.5-pro"), ApiLLMModel::gemini_2_5_pro());
    assert_eq!(from("gemini-2.5-flash"), ApiLLMModel::gemini_2_5_flash());
    assert_eq!(from("gemini-2.5-flash-lite"), ApiLLMModel::gemini_2_5_flash_lite());
    assert_eq!(from("gemini-2.5-flash-lite-preview-09"), ApiLLMModel::gemini_2_5_flash_lite());
    assert_eq!(from("gemini-2.0-flash"), ApiLLMModel::gemini_2_0_flash());
    assert_eq!(from("gemini-2.0-flash-lite"), ApiLLMModel::gemini_2_0_flash_lite());
    assert_eq!(from("gemini-2.5-flash-x"), ApiLLMModel::gemini("gemini-2.5-flash-x"));
    assert_eq!(from("gemini-2.5-pro-latest"), ApiLLMModel::gemini("gemini-2.5-pro-latest"));
    assert_eq!(from(""), ApiLLMModel::gemini(""));
}

#[test]
fn tokenizer_of_a_gemini_model_is_the_encoding_of_gpt_4() {
    assert_eq!(*model_tokenizer("gemini-2.5-pro"), Tokenizer::Tiktoken("gpt-4".to_string()));
    assert_eq!(*model_tokenizer(""), Tokenizer::Tiktoken("gpt-4".to_string()));
}

#[test]
fn builder_chooses_a_model() {
    let builder = GoogleBackendBuilder::default();
    assert_eq!(builder.model, ApiLLMModel::gemini_2_5_flash());
    assert_eq!(builder.config, GoogleConfig::default());
    assert_eq!(builder.clone().gemini_2_5_pro().model, ApiLLMModel::gemini_2_5_pro());
    assert_eq!(builder.clone().gemini_2_5_flash().model, ApiLLMModel::gemini_2_5_flash());
    assert_eq!(
        builder.clone().gemini_2_5_flash_lite().model,
        ApiLLMModel::gemini_2_5_flash_lite()
    );
    assert_eq!(builder.clone().gemini_2_0_flash().model, ApiLLMModel::gemini_2_0_flash());
    assert_eq!(
        builder.clone().gemini_2_0_flash_lite().model,
        ApiLLMModel::gemini_2_0_flash_lite()
    );
    assert_eq!(builder.clone().gemini("mine").model, ApiLLMModel::gemini("mine"));
    assert_eq!(
        builder.clone().model_id_str("gemini-2.0-flash").model,
        ApiLLMModel::gemini_2_0_flash()
    );
    let mut changed = builder;
    changed.api_base_config_mut().port = Some("8080".to_string());
    changed.logging_config_mut().logger_name = "mine".to_string();
    assert_eq!(changed.api_config().port, Some("8080".to_string()));
    assert_eq!(changed.config.logging_config.logger_name, "mine");
    assert_eq!(*changed.model(), ApiLLMModel::gemini_2_5_flash());
}

#[test]
fn urls_are_built_from_host_port_and_path() {
    let mut api = ApiConfig {
        host: "http://localhost".to_string(),
        port: Some("8080".to_string()),
        api_key_env_var: "KEY".to_string(),
    };
    assert_eq!(api.url("/chat/completions"), "http://localhost:8080/chat/completions");
    api.port = None;
    assert_eq!(api.url("/chat/completions"), "http://localhost/chat/completions");
    api.host = "example.org/v1".to_string();
    api.port = Some("8080".to_string());
    assert_eq!(api.url("/embeddings"), "https://example.org/v1/embeddings");
    assert_eq!(
        OpenAIConfig::new().url("/chat/completions"),
        "https://api.openai.com/v1/chat/completions"
    );
    assert_eq!(
        GoogleConfig::new().url("/chat/completions"),
        "https://generativelanguage.googleapis.com/v1beta/openai/chat/completions"
    );
}

#[test]
fn default_configurations() {
    let openai = OpenAIConfig::default();
    assert_eq!(openai.api_config.host, OPENAI_API_HOST);
    assert_eq!(openai.api_config.port, None);
    assert_eq!(openai.api_config.api_key_env_var, "OPENAI_API_KEY");
    assert_eq!(openai.logging_config.logger_name, "openai");
    assert_eq!(openai.org_id, "");
    assert_eq!(openai.project_id, "");
    assert_eq!(openai, OpenAIConfig::new());
    let google = GoogleConfig::default();
    assert_eq!(google.api_config.host, GOOGLE_API_BASE);
    assert_eq!(google.api_config.api_key_env_var, "GEMINI_API_KEY");
    assert_eq!(google.logging_config.logger_name, "gemini");
    assert!(google.extra_headers.is_empty());
}

#[test]
fn openai_headers_are_set_in_order() {
    let pair = |name: &str, value: &str| (name.to_string(), value.to_string());
    assert_eq!(OpenAIConfig::new().headers(None), vec![]);
    let mut config = OpenAIConfig::new().with_org_id("org").with_project_id("proj");
    assert_eq!(config.org_id, "org");
    assert_eq!(config.project_id, "proj");
    config.extra_headers.push(pair("x-trace", "1"));
    assert_eq!(
        config.headers(Some("sk-1")),
        vec![
            pair("OpenAI-Organization", "org"),
            pair("OpenAI-Project", "proj"),
            pair("authorization", "Bearer sk-1"),
            pair("x-trace", "1"),
        ]
    );
    assert_eq!(
        config.headers(None),
        vec![
            pair("OpenAI-Organization", "org"),
            pair("OpenAI-Project", "proj"),
            pair("x-trace", "1")
        ]
    );
}

#[test]
fn header_with_an_invalid_value_is_left_out() {
    let pair = |name: &str, value: &str| (name.to_string(), value.to_string());
    let config = OpenAIConfig::new().with_org_id("or\ng").with_project_id("pr\u{7f}oj");
    assert_eq!(config.headers(Some("sk\r1")), vec![]);
    let tabbed = OpenAIConfig::new().with_org_id("a\tb").with_project_id("caf\u{e9}");
    assert_eq!(
        tabbed.headers(None),
        vec![pair("OpenAI-Organization", "a\tb"), pair("OpenAI-Project", "caf\u{e9}")]
    );
    let mut google = GoogleConfig::new();
    google.extra_headers.push(pair("x-trace", "1"));
    assert_eq!(
        google.headers(Some("key")),
        vec![pair("authorization", "Bearer key"), pair("x-trace", "1")]
    );
    assert_eq!(google.headers(Some("k\0ey")), vec![pair("x-trace", "1")]);
    assert_eq!(google.headers(None), vec![pair("x-trace", "1")]);
}

#[test]
fn local_model_is_put_together_from_what_was_read() {
    let mut loader = GgufLocalLoader::default();
    assert_eq!(loader.load(metadata(), None), Err(LoadError::QuantFilePathNotSet));
    loader.local_quant_file_path = Some("/models/m.gguf".to_string());
    let model = loader.load(metadata(), None).unwrap();
    assert_eq!(model.model_base.model_id, "/models/m.gguf");
    assert_eq!(model.local_model_path, "/models/m.gguf");
    assert_eq!(model.model_base.model_ctx_size, 8192);
    assert_eq!(model.model_base.inference_ctx_size, 8192);
    assert_eq!(*model.model_base.tokenizer, Tokenizer::Embedded);
    assert_eq!(model.chat_template, "embedded");
    assert_eq!(model.model_metadata, metadata());
    loader.model_id = Some("mine".to_string());
    loader.local_tokenizer_path = Some("/models/tokenizer.json".to_string());
    let before = loader.clone();
    let model = loader.load(metadata(), Some("from config".to_string())).unwrap();
    assert_eq!(loader, before);
    assert_eq!(model.model_base.model_id, "mine");
    assert_eq!(
        *model.model_base.tokenizer,
        Tokenizer::File("/models/tokenizer.json".to_string())
    );
    assert_eq!(model.chat_template, "from config");
}

#[test]
fn local_model_needs_a_tokenizer_and_a_chat_template() {
    let mut loader = GgufLocalLoader::default();
    loader.local_quant_file_path = Some("/models/m.gguf".to_string());
    let bare = LocalLLMMetadata { context_length: 1, has_tokenizer: false, chat_template: None };
    assert_eq!(loader.load(bare.clone(), Some("t".to_string())), Err(LoadError::NoTokenizer));
    loader.local_tokenizer_path = Some("/models/tokenizer.json".to_string());
    assert_eq!(loader.load(bare.clone(), None), Err(LoadError::NoChatTemplate));
    assert!(loader.load(bare, Some("t".to_string())).is_ok());
    assert_eq!(LoadError::QuantFilePathNotSet.message(), "local_quant_file_path must be set");
    assert_eq!(
        LoadError::NoTokenizer.message(),
        "no tokenizer file given and none in the model file"
    );
    assert_eq!(
        LoadError::NoChatTemplate.message(),
        "no chat template in the tokenizer configuration or the model file"
    );
}

#[test]
fn search_types() {
    assert_eq!(SearchProvider::default(), SearchProvider::DuckDuckGo);
    let hit = SearchResult::new("Bitcoin", "https://bitcoin.org/", "A currency");
    assert_eq!(hit.title, "Bitcoin");
    assert_eq!(hit.link, "https://bitcoin.org/");
    assert_eq!(hit.snippet, "A currency");
    assert_eq!(SearchError::SearchError("x".to_string()).message(), "Failed to search: x");
    assert_eq!(SearchError::Unknown("x".to_string()).message(), "An unknown error occurred: x");
    assert_eq!(SearchError::IoError("x".to_string()).message(), "IO error: x");
    assert_eq!(SearchError::UrlError("x".to_string()).message(), "Url error: x");
    assert_eq!(SearchError::RequestError("x".to_string()).message(), "Request error: x");
    assert_eq!(SearchError::JsonError("x".to_string()).message(), "JSON error: x");
}
