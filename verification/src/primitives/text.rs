//! Free text of bounded length.

use vstd::prelude::*;
use vstd::string::*;
use super::grammar::{Grammar, ParseError};
use crate::text::{trim, trimmed};

verus! {

/// The primitive for free text of at most `text_token_length` tokens.
#[derive(Debug, Clone, Copy, PartialEq, Eq, Structural)]
pub struct TextPrimitive {
    pub text_token_length: u32,
}

impl Default for TextPrimitive {
    /// Text of at most 200 tokens.
    fn default() -> (primitive: TextPrimitive)
        ensures
            primitive.text_token_length == 200,
    {
        TextPrimitive { text_token_length: 200 }
    }
}

impl TextPrimitive {
    /// The same primitive with another length limit.
    pub fn text_token_length(self, length: u32) -> (primitive: TextPrimitive)
        ensures
            primitive.text_token_length == length,
    {
        TextPrimitive { text_token_length: length }
    }

    /// The constraint: text within the length limit.
    pub fn grammar(&self) -> (grammar: Grammar)
        ensures
            grammar == (Grammar::Text { max_tokens: self.text_token_length }),
    {
        Grammar::Text { max_tokens: self.text_token_length }
    }

    /// Reads the text: what was generated, without the white space at its
    /// ends. Every text is a value.
    pub fn parse(&self, text: &str) -> (value: Result<String, ParseError>)
        ensures
            value matches Ok(t) && t@ == trimmed(text@),
    {
        Ok(trim(text))
    }
}

} // verus!
