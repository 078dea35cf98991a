//! The backends that serve completions: how they are addressed and configured.

pub mod api_config;
pub mod google;
pub mod openai;
