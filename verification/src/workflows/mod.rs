//! Workflows built on cascades.

pub mod extract;
pub mod instruct_prompt;
pub mod laws;
pub mod session;
pub mod urls;
