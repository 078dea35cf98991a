//! Descriptions of the models that a backend can serve.

pub mod api_model;
pub mod gguf;
pub mod google;
pub mod tokenizer;
