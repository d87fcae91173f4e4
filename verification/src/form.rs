//! The rules of the entry form: what is made of the word as it was typed, and
//! when a note may be asked for.

use vstd::prelude::*;
use crate::charclass::{regex_compiles, CharClass};

verus! {

/// The characters a word is written in: kanji and the two kana.
pub const JAPANESE_CLASS: &'static str = "[\\p{Han}\\p{Hiragana}\\p{Katakana}]";

/// Frees a typed word of everything that is not Japanese script.
pub struct WordCleaner {
    japanese: CharClass,
}

impl WordCleaner {
    /// The class that decides what stays.
    pub closed spec fn japanese_class(&self) -> CharClass {
        self.japanese
    }

    /// `c` stays.
    pub open spec fn is_japanese(&self, c: char) -> bool {
        self.japanese_class().has(c)
    }

    /// `is_japanese` as a predicate.
    pub open spec fn japanese_only(&self) -> spec_fn(char) -> bool {
        |c: char| self.is_japanese(c)
    }

    /// `word` without what does not stay, the rest in its order.
    pub open spec fn cleaned(&self, word: Seq<char>) -> Seq<char> {
        word.filter(self.japanese_only())
    }

    /// A cleaner; `None` where the class cannot be compiled.
    pub fn new() -> (r: Option<WordCleaner>)
        ensures
            r is Some == regex_compiles(JAPANESE_CLASS@),
            r matches Some(cleaner) ==> cleaner.japanese_class().pattern() == JAPANESE_CLASS@,
    {
        match CharClass::compile(JAPANESE_CLASS) {
            Some(japanese) => Some(WordCleaner { japanese }),
            None => None,
        }
    }

    /// Strips from `word` every character that is not Japanese script.
    pub fn clean(&self, word: &str) -> (out: String)
        ensures
            out@ == self.cleaned(word@),
    {
        let out = self.japanese.retain(word);
        proof {
            assert(self.japanese.members() =~= self.japanese_only());
        }
        out
    }
}

/// Whether `selected` is one of `decks`: only then may a note be asked for.
pub fn deck_is_known(decks: &Vec<String>, selected: &String) -> (known: bool)
    ensures
        known == decks.deep_view().contains(selected@),
{
    let mut i: usize = 0;
    while i < decks.len()
        invariant
            i <= decks.len(),
            forall|k: int| 0 <= k < i ==> decks@[k]@ != selected@,
        decreases decks.len() - i,
    {
        if decks[i] == *selected {
            proof {
                assert(decks.deep_view()[i as int] == selected@);
            }
            return true;
        }
        i += 1;
    }
    proof {
        assert forall|k: int| 0 <= k < decks.deep_view().len() implies decks.deep_view()[k]
            != selected@ by {
            assert(decks.deep_view()[k] == decks@[k]@);
        }
    }
    false
}

} // verus!
