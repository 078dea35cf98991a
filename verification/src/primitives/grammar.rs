//! The constraint that a step puts on the model's output.

use vstd::prelude::*;
use vstd::string::*;
use crate::text::{clone_strings, contains_string, decimal, decimal_text, join, joined, trim, trimmed, views};

verus! {

/// The shape that generated text has to have.
#[derive(Debug, Clone, PartialEq, Eq)]
pub enum Grammar {
    /// Any text.
    Unconstrained,
    /// The word `true` or the word `false`.
    Boolean,
    /// One of the listed strings.
    ExactString { allowed: Vec<String> },
    /// Free text of at most `max_tokens` tokens, on one line.
    Text { max_tokens: u32 },
}

/// Why generated text is not a value of a primitive.
#[derive(Debug, Clone, PartialEq, Eq)]
pub enum ParseError {
    /// The text is neither `true` nor `false`.
    NotBoolean(String),
    /// The text is not among the allowed strings.
    NotAllowed(String),
}

/// A grammar as plain values.
pub enum GrammarView {
    Unconstrained,
    Boolean,
    ExactString { allowed: Seq<Seq<char>> },
    Text { max_tokens: u32 },
}

impl View for Grammar {
    type V = GrammarView;

    open spec fn view(&self) -> GrammarView {
        match self {
            Grammar::Unconstrained => GrammarView::Unconstrained,
            Grammar::Boolean => GrammarView::Boolean,
            Grammar::ExactString { allowed } => GrammarView::ExactString {
                allowed: views(allowed@),
            },
            Grammar::Text { max_tokens } => GrammarView::Text { max_tokens: *max_tokens },
        }
    }
}

/// The value that `text` is under `grammar`, as text: the word of a logical
/// value, the chosen string, or free text without the white space at its
/// ends. `None` where the text is no value.
pub open spec fn parsed(grammar: GrammarView, text: Seq<char>) -> Option<Seq<char>> {
    match grammar {
        GrammarView::Unconstrained => Some(text),
        GrammarView::Boolean => if text == "true"@ || text == "false"@ {
            Some(text)
        } else {
            None
        },
        GrammarView::ExactString { allowed } => if allowed.contains(text) {
            Some(text)
        } else {
            None
        },
        GrammarView::Text { .. } => Some(trimmed(text)),
    }
}

/// A parse error as plain values.
pub enum ParseErrorView {
    NotBoolean(Seq<char>),
    NotAllowed(Seq<char>),
}

impl View for ParseError {
    type V = ParseErrorView;

    open spec fn view(&self) -> ParseErrorView {
        match self {
            ParseError::NotBoolean(t) => ParseErrorView::NotBoolean(t@),
            ParseError::NotAllowed(t) => ParseErrorView::NotAllowed(t@),
        }
    }
}

/// How `text` is refused under `grammar`.
pub open spec fn refused(grammar: GrammarView, text: Seq<char>) -> ParseErrorView {
    match grammar {
        GrammarView::Boolean => ParseErrorView::NotBoolean(text),
        _ => ParseErrorView::NotAllowed(text),
    }
}

/// Whether `error` is how `text` is refused under `grammar`.
pub open spec fn refusal(grammar: GrammarView, text: Seq<char>, error: ParseError) -> bool {
    error@ == refused(grammar, text)
}

/// `word` between double quotes.
pub open spec fn quoted(word: Seq<char>) -> Seq<char> {
    "\""@ + word + "\""@
}

/// The alternatives of a grammar rule: each word quoted, with bars between them.
pub open spec fn alternatives(words: Seq<Seq<char>>) -> Seq<char> {
    joined(words.map_values(|w: Seq<char>| quoted(w)), " | "@)
}

/// A grammar in the notation that backends take; nothing for "any text".
pub open spec fn rendered_text(grammar: GrammarView) -> Option<Seq<char>> {
    match grammar {
        GrammarView::Unconstrained => None,
        GrammarView::Boolean => Some("root ::= \"true\" | \"false\""@),
        GrammarView::ExactString { allowed } => Some("root ::= "@ + alternatives(allowed)),
        GrammarView::Text { max_tokens } => Some(
            "root ::= [^\\n]+ # at most "@ + decimal_text(max_tokens as nat) + " tokens"@,
        ),
    }
}

impl Grammar {
    /// The grammar in the notation that backends take.
    pub open spec fn rendered(&self) -> Option<Seq<char>> {
        rendered_text(self@)
    }

    /// A copy of the grammar.
    pub fn duplicate(&self) -> (copy: Grammar)
        ensures
            copy@ == self@,
    {
        match self {
            Grammar::Unconstrained => Grammar::Unconstrained,
            Grammar::Boolean => Grammar::Boolean,
            Grammar::ExactString { allowed } => Grammar::ExactString {
                allowed: clone_strings(allowed),
            },
            Grammar::Text { max_tokens } => Grammar::Text { max_tokens: *max_tokens },
        }
    }

    /// Reads generated text as a value of this grammar and hands the
    /// value back as text.
    pub fn parse(&self, text: &str) -> (value: Result<String, ParseError>)
        ensures
            match parsed(self@, text@) {
                Some(v) => value matches Ok(t) && t@ == v,
                None => value matches Err(e) && refusal(self@, text@, e),
            },
    {
        match self {
            Grammar::Unconstrained => Ok(text.to_owned()),
            Grammar::Boolean => {
                let owned = text.to_owned();
                if owned == "true".to_owned() || owned == "false".to_owned() {
                    Ok(owned)
                } else {
                    Err(ParseError::NotBoolean(owned))
                }
            },
            Grammar::ExactString { allowed } => {
                if contains_string(allowed, text) {
                    Ok(text.to_owned())
                } else {
                    Err(ParseError::NotAllowed(text.to_owned()))
                }
            },
            Grammar::Text { .. } => Ok(trim(text)),
        }
    }

    /// Renders the grammar in the notation that backends take; nothing for "any text".
    pub fn grammar_string(&self) -> (text: Option<String>)
        ensures
            crate::requests::stop_sequence::opt_view(text) == self.rendered(),
    {
        match self {
            Grammar::Unconstrained => None,
            Grammar::Boolean => Some("root ::= \"true\" | \"false\"".to_owned()),
            Grammar::ExactString { allowed } => {
                let mut words: Vec<String> = Vec::new();
                let mut i: usize = 0;
                while i < allowed.len()
                    invariant
                        i <= allowed.len(),
                        views(words@) == views(allowed@).take(i as int).map_values(
                            |w: Seq<char>| quoted(w),
                        ),
                    decreases allowed.len() - i,
                {
                    let ghost before = words@;
                    assert(views(before).len() == i);
                    let word = "\"".to_owned().concat(allowed[i].as_str()).concat("\"");
                    words.push(word);
                    assert forall|j: int| 0 <= j < i + 1 implies views(words@)[j] == views(
                        allowed@,
                    ).take(i + 1).map_values(|w: Seq<char>| quoted(w))[j] by {
                        if j < i {
                            assert(views(before)[j] == views(allowed@).take(i as int).map_values(
                                |w: Seq<char>| quoted(w),
                            )[j]);
                        }
                    }
                    assert(views(words@) =~= views(allowed@).take(i + 1).map_values(
                        |w: Seq<char>| quoted(w),
                    ));
                    i += 1;
                }
                assert(views(allowed@).take(i as int) =~= views(allowed@));
                let list = join(&words, " | ");
                Some("root ::= ".to_owned().concat(list.as_str()))
            },
            Grammar::Text { max_tokens } => {
                let limit = decimal(*max_tokens as u64);
                Some(
                    "root ::= [^\\n]+ # at most ".to_owned().concat(limit.as_str()).concat(
                        " tokens",
                    ),
                )
            },
        }
    }
}

} // verus!
