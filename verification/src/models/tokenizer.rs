//! Which tokenizer counts a model's tokens.

use vstd::prelude::*;
use vstd::string::*;

verus! {

/// Where a model's tokenizer comes from. The tokenizer itself is loaded
/// by the caller.
#[derive(Debug, Clone, PartialEq, Eq)]
pub enum Tokenizer {
    /// The tiktoken encoding of the named model.
    Tiktoken(String),
    /// The tokenizer file at this path.
    File(String),
    /// The tokenizer that the model file carries.
    Embedded,
}

/// A tokenizer's source as plain values.
pub enum TokenizerView {
    Tiktoken(Seq<char>),
    File(Seq<char>),
    Embedded,
}

impl View for Tokenizer {
    type V = TokenizerView;

    open spec fn view(&self) -> TokenizerView {
        match self {
            Tokenizer::Tiktoken(model) => TokenizerView::Tiktoken(model@),
            Tokenizer::File(path) => TokenizerView::File(path@),
            Tokenizer::Embedded => TokenizerView::Embedded,
        }
    }
}

} // verus!
