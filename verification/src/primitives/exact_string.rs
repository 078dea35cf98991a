//! A choice among candidate strings.

use vstd::prelude::*;
use vstd::string::*;
use super::grammar::{Grammar, ParseError};
use crate::text::views;

verus! {

/// The primitive for one string out of a set of candidates.
///
/// The candidates are kept in the order in which they were added, each once.
#[derive(Debug, Clone, PartialEq, Eq)]
pub struct ExactStringPrimitive {
    pub allowed_strings: Vec<String>,
}

/// `allowed` with those of `words` added that it does not hold yet, in order.
pub open spec fn with_added(allowed: Seq<Seq<char>>, words: Seq<Seq<char>>) -> Seq<Seq<char>>
    decreases words.len(),
{
    if words.len() == 0 {
        allowed
    } else {
        let before = with_added(allowed, words.drop_last());
        if before.contains(words.last()) {
            before
        } else {
            before.push(words.last())
        }
    }
}

/// `allowed` without its first occurrence of `word`.
pub open spec fn without(allowed: Seq<Seq<char>>, word: Seq<char>) -> Seq<Seq<char>> {
    match allowed.index_of_first(word) {
        Some(position) => allowed.remove(position),
        None => allowed,
    }
}

/// Removal from a set: a candidate that is not there leaves the list as
/// it is; one that is there leaves it shorter by one, without that
/// candidate, and without duplicates as before; and the others keep
/// their order.
pub proof fn lemma_without(allowed: Seq<Seq<char>>, word: Seq<char>)
    requires
        allowed.no_duplicates(),
    ensures
        !allowed.contains(word) ==> without(allowed, word) == allowed,
        allowed.contains(word) ==> without(allowed, word).len() == allowed.len() - 1,
        !without(allowed, word).contains(word),
        without(allowed, word).no_duplicates(),
        forall|other: Seq<char>|
            other != word ==> (without(allowed, word).contains(other) <==> allowed.contains(
                other,
            )),
        without(without(allowed, word), word) == without(allowed, word),
{
    allowed.index_of_first_ensures(word);
    if allowed.contains(word) {
        let k = allowed.index_of_first(word)->0;
        let rest = allowed.remove(k);
        assert forall|j: int| 0 <= j < rest.len() implies rest[j] != word by {
            if j < k {
                assert(rest[j] == allowed[j]);
            } else {
                assert(rest[j] == allowed[j + 1]);
            }
        }
        assert forall|i: int, j: int| 0 <= i < rest.len() && 0 <= j < rest.len() && i != j implies rest[i]
            != rest[j] by {
            let a = if i < k { i } else { i + 1 };
            let b = if j < k { j } else { j + 1 };
            assert(rest[i] == allowed[a]);
            assert(rest[j] == allowed[b]);
        }
        assert forall|other: Seq<char>| other != word implies (rest.contains(other)
            <==> allowed.contains(other)) by {
            if rest.contains(other) {
                let j = choose|j: int| 0 <= j < rest.len() && rest[j] == other;
                let a = if j < k { j } else { j + 1 };
                assert(allowed[a] == other);
            }
            if allowed.contains(other) {
                let a = choose|a: int| 0 <= a < allowed.len() && allowed[a] == other;
                let j = if a < k { a } else { a - 1 };
                assert(rest[j] == other);
            }
        }
        rest.index_of_first_ensures(word);
    }
}

impl View for ExactStringPrimitive {
    type V = Seq<Seq<char>>;

    /// The candidates, in order.
    open spec fn view(&self) -> Seq<Seq<char>> {
        views(self.allowed_strings@)
    }
}

impl Default for ExactStringPrimitive {
    /// No candidates.
    fn default() -> (primitive: ExactStringPrimitive)
        ensures
            primitive@ == Seq::<Seq<char>>::empty(),
            primitive.wf(),
    {
        let primitive = ExactStringPrimitive { allowed_strings: Vec::new() };
        assert(primitive@ =~= Seq::empty());
        primitive
    }
}

impl ExactStringPrimitive {
    /// No candidate occurs twice.
    pub open spec fn wf(&self) -> bool {
        self@.no_duplicates()
    }

    /// Where `word` stands among the candidates, if it does.
    pub fn position(&self, word: &str) -> (found: Option<usize>)
        ensures
            match found {
                Some(i) => i < self@.len() && self@[i as int] == word@ && forall|j: int|
                    0 <= j < i ==> self@[j] != word@,
                None => !self@.contains(word@),
            },
    {
        let owned = word.to_owned();
        let mut i: usize = 0;
        while i < self.allowed_strings.len()
            invariant
                i <= self.allowed_strings.len(),
                owned@ == word@,
                forall|j: int| 0 <= j < i ==> self@[j] != word@,
            decreases self.allowed_strings.len() - i,
        {
            if self.allowed_strings[i] == owned {
                return Some(i);
            }
            i += 1;
        }
        None
    }

    /// Adds candidates. One that is already there, or that occurs earlier
    /// in `words`, is not added again.
    pub fn add_strings_to_allowed(&mut self, words: &Vec<String>)
        ensures
            final(self)@ == with_added(old(self)@, views(words@)),
            old(self).wf() ==> final(self).wf(),
    {
        let mut i: usize = 0;
        while i < words.len()
            invariant
                i <= words.len(),
                old(self).wf() ==> self.wf(),
                self@ == with_added(old(self)@, views(words@).take(i as int)),
            decreases words.len() - i,
        {
            let ghost before = self@;
            proof {
                assert(views(words@).take(i + 1).drop_last() =~= views(words@).take(i as int));
                assert(views(words@).take(i + 1).last() == words@[i as int]@);
            }
            if self.position(words[i].as_str()).is_none() {
                self.allowed_strings.push(words[i].clone());
                assert(self@ =~= before.push(words@[i as int]@));
            }
            i += 1;
        }
        assert(views(words@).take(i as int) =~= views(words@));
    }

    /// Removes a candidate. Removing one that is not there changes nothing.
    pub fn remove_string_from_allowed(&mut self, word: &str)
        ensures
            final(self)@ == without(old(self)@, word@),
            old(self)@.contains(word@) ==> final(self)@.len() == old(self)@.len() - 1,
            !old(self)@.contains(word@) ==> final(self)@ == old(self)@,
            old(self).wf() ==> final(self).wf() && !final(self)@.contains(word@),
    {
        match self.position(word) {
            None => {
                proof {
                    self@.index_of_first_ensures(word@);
                }
            },
            Some(i) => {
                let ghost before = self@;
                proof {
                    before.index_of_first_ensures(word@);
                    assert(before.contains(word@));
                    assert(before.index_of_first(word@) == Some(i as int));
                }
                self.allowed_strings.remove(i);
                assert(self@ =~= before.remove(i as int));
                proof {
                    if old(self).wf() {
                        lemma_without(before, word@);
                    }
                }
            },
        }
    }

    /// The constraint: one of the candidates as they stand now.
    pub fn grammar(&self) -> (grammar: Grammar)
        ensures
            grammar matches Grammar::ExactString { allowed } && views(allowed@) == self@,
    {
        let mut allowed: Vec<String> = Vec::new();
        let mut i: usize = 0;
        while i < self.allowed_strings.len()
            invariant
                i <= self.allowed_strings.len(),
                views(allowed@) == self@.take(i as int),
            decreases self.allowed_strings.len() - i,
        {
            let ghost before = allowed@;
            assert(views(before).len() == i);
            allowed.push(self.allowed_strings[i].clone());
            assert forall|j: int| 0 <= j < i + 1 implies views(allowed@)[j] == self@.take(
                i + 1,
            )[j] by {
                if j < i {
                    assert(views(before)[j] == self@.take(i as int)[j]);
                }
            }
            assert(views(allowed@) =~= self@.take(i + 1));
            i += 1;
        }
        assert(self@.take(i as int) =~= self@);
        Grammar::ExactString { allowed }
    }

    /// Reads a choice: the text has to be one of the candidates.
    pub fn parse(&self, text: &str) -> (value: Result<String, ParseError>)
        ensures
            self@.contains(text@) ==> (value matches Ok(t) && t@ == text@),
            !self@.contains(text@) ==> (value matches Err(ParseError::NotAllowed(t)) && t@
                == text@),
    {
        match self.position(text) {
            Some(_) => Ok(text.to_owned()),
            None => Err(ParseError::NotAllowed(text.to_owned())),
        }
    }
}

} // verus!
