//! Classes of characters, given as a pattern and matched by the `regex` crate.

use vstd::prelude::*;
use regex::Regex;

verus! {

/// `regex::Regex`, a compiled expression. Nothing of its inside is known
/// here.
#[verifier::external_type_specification]
#[verifier::external_body]
pub struct ExRegex(regex::Regex);

/// `regex::Error`, the reason why a pattern was refused. Nothing of its inside
/// is known here.
#[verifier::external_type_specification]
#[verifier::external_body]
pub struct ExRegexError(regex::Error);

/// Whether `Regex::new` accepts `pattern`.
pub uninterp spec fn regex_compiles(pattern: Seq<char>) -> bool;

/// The pattern text that a compiled expression was made from, as
/// `Regex::as_str` reports it.
pub uninterp spec fn regex_source(re: &Regex) -> Seq<char>;

/// Whether a compiled expression finds a match anywhere in `haystack`, as
/// `Regex::is_match` reports it.
pub uninterp spec fn regex_is_match(re: &Regex, haystack: Seq<char>) -> bool;

/// `Regex::new`: compiles the pattern `re`, or refuses it. Whether it is
/// refused depends on the pattern alone; which patterns are is not said here.
/// A compiled expression remembers the text it was made from.
pub assume_specification[ Regex::new ](re: &str) -> (r: Result<Regex, regex::Error>)
    ensures
        r is Ok == regex_compiles(re@),
        r matches Ok(compiled) ==> regex_source(&compiled) == re@,
;

/// `Regex::is_match` on the one-character text `c`. The answer is a function
/// of the compiled expression and the text alone.
#[verifier::external_body]
fn is_match_char(re: &Regex, c: char) -> (found: bool)
    ensures
        found == regex_is_match(re, seq![c]),
{
    let mut buf = [0u8; 4];
    re.is_match(c.encode_utf8(&mut buf))
}

/// A compiled class of characters.
pub struct CharClass {
    re: Regex,
}

impl CharClass {
    /// The compiled expression that stands for the class.
    pub closed spec fn regex(&self) -> Regex {
        self.re
    }

    /// The pattern this class was compiled from.
    pub open spec fn pattern(&self) -> Seq<char> {
        regex_source(&self.regex())
    }

    /// `c` belongs to the class: the expression matches the text made of `c`
    /// alone.
    pub open spec fn has(&self, c: char) -> bool {
        regex_is_match(&self.regex(), seq![c])
    }

    /// Compiles `pattern`; `None` where the pattern is refused.
    pub fn compile(pattern: &str) -> (r: Option<CharClass>)
        ensures
            r is Some == regex_compiles(pattern@),
            r matches Some(class) ==> class.pattern() == pattern@,
    {
        match Regex::new(pattern) {
            Ok(re) => Some(CharClass { re }),
            Err(_) => None,
        }
    }

    /// `has` as a predicate.
    pub open spec fn members(&self) -> spec_fn(char) -> bool {
        |c: char| self.has(c)
    }

    /// Whether `c` belongs to the class.
    pub fn contains(&self, c: char) -> (b: bool)
        ensures
            b == self.has(c),
    {
        is_match_char(&self.re, c)
    }

    /// The characters of `text` that belong to the class, in their order.
    pub fn retain(&self, text: &str) -> (out: String)
        ensures
            out@ == text@.filter(self.members()),
    {
        let mut out = String::new();
        for c in it: text.chars()
            invariant
                it.seq() == text@,
                out@ == it.seq().take(it.index() as int).filter(self.members()),
        {
            if self.contains(c) {
                out.push(c);
            }
            proof {
                let seen = it.seq().take(it.index() as int);
                assert(it.seq().take(it.index() + 1) == seen.push(c));
                seen.lemma_filter_push(c, self.members());
            }
        }
        proof {
            assert(text@.take(text@.len() as int) == text@);
        }
        out
    }
}

} // verus!
