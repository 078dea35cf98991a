//! The markers a backend is told to stop on, and what stopping on one means.

use vstd::prelude::*;
use vstd::string::*;

verus! {

/// A marker that ends generation, with the meaning it carries.
#[derive(Debug, Clone, PartialEq, Eq)]
pub enum StoppingSequence {
    /// The model finished its answer.
    InferenceDone(String),
    /// The model declared that it has no answer.
    NullResult(String),
}

impl StoppingSequence {
    /// The marker's text.
    pub open spec fn text(&self) -> Seq<char> {
        match self {
            StoppingSequence::InferenceDone(word) => word@,
            StoppingSequence::NullResult(word) => word@,
        }
    }

    /// The marker's text.
    pub fn as_str(&self) -> (word: &str)
        ensures
            word@ == self.text(),
    {
        match self {
            StoppingSequence::InferenceDone(word) => word.as_str(),
            StoppingSequence::NullResult(word) => word.as_str(),
        }
    }
}

/// How a response ended.
#[derive(Debug, Clone, PartialEq, Eq)]
pub enum CompletionFinishReason {
    /// The model ended its output by itself.
    Eos,
    /// Generation stopped on one of the request's markers.
    MatchingStoppingSequence(StoppingSequence),
    /// Generation stopped on a marker the request did not list, or on none that the backend named.
    NonMatchingStoppingSequence(Option<String>),
    /// The output budget ran out.
    StopLimit,
    /// The model asked for a tool call.
    ToolsCall,
}

/// Up to two markers, one for "done" and one for "no result", and whether a
/// response has to end on one of them.
#[derive(Debug, Clone, PartialEq, Eq)]
pub struct StopSequences {
    /// The marker that ends a finished answer.
    pub done: Option<String>,
    /// The marker that stands for "no answer".
    pub no_result: Option<String>,
    /// Whether a response that ends on neither marker is a failure.
    pub required: bool,
}

/// The text of an optional string.
pub open spec fn opt_view(word: Option<String>) -> Option<Seq<char>> {
    match word {
        Some(w) => Some(w@),
        None => None,
    }
}

/// What a stop on `stopped_on` means for markers `done` and `no_result`.
///
/// A stop that the "done" marker explains is a finished answer, also where
/// both markers have the same text.
pub open spec fn classified(
    done: Option<Seq<char>>,
    no_result: Option<Seq<char>>,
    stopped_on: Option<Seq<char>>,
    reason: CompletionFinishReason,
) -> bool {
    match stopped_on {
        None => reason == CompletionFinishReason::NonMatchingStoppingSequence(None),
        Some(word) => if done == Some(word) {
            reason matches CompletionFinishReason::MatchingStoppingSequence(
                StoppingSequence::InferenceDone(w),
            ) && w@ == word
        } else if no_result == Some(word) {
            reason matches CompletionFinishReason::MatchingStoppingSequence(
                StoppingSequence::NullResult(w),
            ) && w@ == word
        } else {
            reason matches CompletionFinishReason::NonMatchingStoppingSequence(Some(w)) && w@
                == word
        },
    }
}

impl StopSequences {
    /// No markers, and none required.
    pub fn new() -> (stops: StopSequences)
        ensures
            stops.done is None,
            stops.no_result is None,
            !stops.required,
    {
        StopSequences { done: None, no_result: None, required: false }
    }

    /// A copy of the markers.
    pub fn duplicate(&self) -> (copy: StopSequences)
        ensures
            copy == *self,
    {
        StopSequences {
            done: crate::text::clone_opt(&self.done),
            no_result: crate::text::clone_opt(&self.no_result),
            required: self.required,
        }
    }

    /// Sets the marker that ends a finished answer.
    pub fn set_stop_word_done(&mut self, word: &str)
        ensures
            opt_view(final(self).done) == Some(word@),
            final(self).no_result == old(self).no_result,
            final(self).required == old(self).required,
    {
        self.done = Some(word.to_owned());
    }

    /// Sets the marker that stands for "no answer".
    pub fn set_stop_word_no_result(&mut self, word: &str)
        ensures
            opt_view(final(self).no_result) == Some(word@),
            final(self).done == old(self).done,
            final(self).required == old(self).required,
    {
        self.no_result = Some(word.to_owned());
    }

    /// Empties the set: no marker is listed, and none is required.
    pub fn clear(&mut self)
        ensures
            final(self).done is None,
            final(self).no_result is None,
            !final(self).required,
    {
        self.done = None;
        self.no_result = None;
        self.required = false;
    }

    /// The markers as a backend takes them: "done" first, then "no result".
    pub open spec fn listed(&self) -> Seq<Seq<char>> {
        let first: Seq<Seq<char>> = match self.done {
            Some(w) => seq![w@],
            None => seq![],
        };
        match self.no_result {
            Some(w) => first.push(w@),
            None => first,
        }
    }

    /// The markers as a backend takes them: "done" first, then "no result".
    pub fn to_vec(&self) -> (words: Vec<String>)
        ensures
            crate::text::views(words@) == self.listed(),
    {
        let mut words: Vec<String> = Vec::new();
        if let Some(w) = &self.done {
            words.push(w.clone());
        }
        if let Some(w) = &self.no_result {
            words.push(w.clone());
        }
        assert(crate::text::views(words@) =~= self.listed());
        words
    }

    /// Classifies the marker on which a backend says generation stopped.
    pub fn classify(&self, stopped_on: Option<&str>) -> (reason: CompletionFinishReason)
        ensures
            classified(
                opt_view(self.done),
                opt_view(self.no_result),
                match stopped_on {
                    Some(w) => Some(w@),
                    None => None,
                },
                reason,
            ),
    {
        match stopped_on {
            None => CompletionFinishReason::NonMatchingStoppingSequence(None),
            Some(word) => {
                let owned = word.to_owned();
                if let Some(done) = &self.done {
                    if *done == owned {
                        return CompletionFinishReason::MatchingStoppingSequence(
                            StoppingSequence::InferenceDone(owned),
                        );
                    }
                }
                if let Some(no_result) = &self.no_result {
                    if *no_result == owned {
                        return CompletionFinishReason::MatchingStoppingSequence(
                            StoppingSequence::NullResult(owned),
                        );
                    }
                }
                CompletionFinishReason::NonMatchingStoppingSequence(Some(owned))
            },
        }
    }
}

} // verus!
