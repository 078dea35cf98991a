//! A yes-or-no answer.

use vstd::prelude::*;
use vstd::string::*;
use super::grammar::{Grammar, ParseError};

verus! {

/// The primitive for a logical value: the model may write `true` or `false`.
#[derive(Debug, Clone, Copy, PartialEq, Eq, Structural)]
pub struct BooleanPrimitive {}

/// The value that `text` stands for, if it stands for one.
pub open spec fn boolean_of(text: Seq<char>) -> Option<bool> {
    if text == "true"@ {
        Some(true)
    } else if text == "false"@ {
        Some(false)
    } else {
        None
    }
}

impl Default for BooleanPrimitive {
    fn default() -> (primitive: BooleanPrimitive)
        ensures
            primitive == (BooleanPrimitive {  }),
    {
        BooleanPrimitive {  }
    }
}

impl BooleanPrimitive {
    /// The constraint: one of the two words.
    pub fn grammar(&self) -> (grammar: Grammar)
        ensures
            grammar == Grammar::Boolean,
    {
        Grammar::Boolean
    }

    /// Reads a logical value. Only the two words are values; any other
    /// text is refused and handed back in the error.
    pub fn parse(&self, text: &str) -> (value: Result<bool, ParseError>)
        ensures
            match boolean_of(text@) {
                Some(b) => value == Ok::<bool, ParseError>(b),
                None => value matches Err(ParseError::NotBoolean(t)) && t@ == text@,
            },
    {
        let owned = text.to_owned();
        if owned == "true".to_owned() {
            Ok(true)
        } else if owned == "false".to_owned() {
            Ok(false)
        } else {
            Err(ParseError::NotBoolean(owned))
        }
    }
}

} // verus!
