//! Grammar primitives: each pairs a constraint on what the model may
//! generate with a parser for what it generated.

pub mod boolean;
pub mod exact_string;
pub mod grammar;
pub mod text;
