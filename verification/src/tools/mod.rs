//! Tools that an agent can call.

pub mod search;
