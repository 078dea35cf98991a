//! One logical conversation with a completion backend: its configuration,
//! its prompt, and the engine that retries a completion within bounds.

pub mod components;
pub mod config;
pub mod error;
pub mod laws;
pub mod prompt;
pub mod request;
pub mod response;
pub mod stop_sequence;
