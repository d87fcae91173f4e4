//! The ideograph service: one lookup per kanji of a word.

use vstd::prelude::*;
use crate::charclass::{regex_compiles, CharClass};

verus! {

pub const KANJI_API_ADDRESS: &'static str = "https://kanjiapi.dev/v1";

/// The class of characters of the Han script.
pub const HAN_CLASS: &'static str = "\\p{Han}";

/// The iteration mark, which repeats the kanji before it and is no kanji
/// itself.
pub const ITERATION_MARK: char = '\u{3005}';

/// What the service knows of one kanji.
#[derive(Debug, PartialEq, Eq)]
pub struct KanjiApiResponse {
    pub kanji: String,
    pub meanings: Vec<String>,
    pub kun_readings: Vec<String>,
    pub on_readings: Vec<String>,
    pub name_readings: Vec<String>,
}

pub struct KanjiView {
    pub kanji: Seq<char>,
    pub meanings: Seq<Seq<char>>,
    pub kun_readings: Seq<Seq<char>>,
    pub on_readings: Seq<Seq<char>>,
    pub name_readings: Seq<Seq<char>>,
}

impl View for KanjiApiResponse {
    type V = KanjiView;

    open spec fn view(&self) -> KanjiView {
        KanjiView {
            kanji: self.kanji@,
            meanings: self.meanings.deep_view(),
            kun_readings: self.kun_readings.deep_view(),
            on_readings: self.on_readings.deep_view(),
            name_readings: self.name_readings.deep_view(),
        }
    }
}

/// The address to ask for one kanji.
pub open spec fn kanji_address(kanji: char) -> Seq<char> {
    (KANJI_API_ADDRESS@ + "/kanji/"@).push(kanji)
}

/// Prepares lookups for the ideograph service.
pub struct KanjiAPIClient {
    han: CharClass,
}

impl KanjiAPIClient {
    /// The class that decides what counts as Han script.
    pub closed spec fn han_class(&self) -> CharClass {
        self.han
    }

    /// `c` is looked up: it is of the Han script and is not the iteration mark.
    pub open spec fn is_kanji(&self, c: char) -> bool {
        self.han_class().has(c) && c != ITERATION_MARK
    }

    /// `is_kanji` as a predicate.
    pub open spec fn kanji_only(&self) -> spec_fn(char) -> bool {
        |c: char| self.is_kanji(c)
    }

    /// `word` without the characters that are not looked up. What stays keeps
    /// its order, and a kanji that occurs twice stays twice.
    pub open spec fn normalized(&self, word: Seq<char>) -> Seq<char> {
        word.filter(self.kanji_only())
    }

    /// A client; `None` where the Han class cannot be compiled.
    pub fn new() -> (r: Option<KanjiAPIClient>)
        ensures
            r is Some == regex_compiles(HAN_CLASS@),
            r matches Some(client) ==> client.han_class().pattern() == HAN_CLASS@,
    {
        match CharClass::compile(HAN_CLASS) {
            Some(han) => Some(KanjiAPIClient { han }),
            None => None,
        }
    }

    /// Whether `c` is looked up.
    pub fn keeps(&self, c: char) -> (b: bool)
        ensures
            b == self.is_kanji(c),
    {
        self.han.contains(c) && c != ITERATION_MARK
    }

    /// Strips from `word` every character that is not looked up.
    pub fn remove_all_but_kanji(&self, word: &str) -> (out: String)
        ensures
            out@ == self.normalized(word@),
    {
        let mut out = String::new();
        for c in it: word.chars()
            invariant
                it.seq() == word@,
                out@ == it.seq().take(it.index() as int).filter(self.kanji_only()),
        {
            if self.keeps(c) {
                out.push(c);
            }
            proof {
                let seen = it.seq().take(it.index() as int);
                assert(it.seq().take(it.index() + 1) == seen.push(c));
                seen.lemma_filter_push(c, self.kanji_only());
            }
        }
        proof {
            assert(word@.take(word@.len() as int) == word@);
        }
        out
    }

    /// The address to ask for `kanji`.
    pub fn kanji_url(&self, kanji: char) -> (url: String)
        ensures
            url@ == kanji_address(kanji),
    {
        let mut url = String::from_str(KANJI_API_ADDRESS);
        url.append("/kanji/");
        url.push(kanji);
        url
    }
}

/// What stays of a word is made of kanji alone and is no longer than the
/// word, and the iteration mark is never in it.
pub proof fn normalized_holds_kanji_only(client: KanjiAPIClient, word: Seq<char>)
    ensures
        client.normalized(word).len() <= word.len(),
        forall|i: int|
            0 <= i < client.normalized(word).len() ==> client.is_kanji(
                #[trigger] client.normalized(word)[i],
            ),
        !client.normalized(word).contains(ITERATION_MARK),
{
    let kept = client.normalized(word);
    word.lemma_filter_len(client.kanji_only());
    assert forall|i: int| 0 <= i < kept.len() implies client.is_kanji(#[trigger] kept[i]) by {
        word.lemma_filter_pred(client.kanji_only(), i);
    }
}

/// A word is stripped piece by piece: what stays of two texts written one
/// after the other is what stays of the first, then what stays of the second.
/// So nothing is moved, and nothing that stands twice is dropped.
pub proof fn normalized_goes_piece_by_piece(
    client: KanjiAPIClient,
    first: Seq<char>,
    second: Seq<char>,
)
    ensures
        client.normalized(first + second) == client.normalized(first) + client.normalized(second),
{
    Seq::filter_distributes_over_add(first, second, client.kanji_only());
}

/// A character that is looked up stays where it stands alone, and any other
/// goes.
pub proof fn normalized_one_character(client: KanjiAPIClient, c: char)
    ensures
        client.normalized(seq![c]) == if client.is_kanji(c) {
            seq![c]
        } else {
            Seq::<char>::empty()
        },
{
    Seq::<char>::empty().lemma_filter_push(c, client.kanji_only());
    assert(Seq::<char>::empty().push(c) == seq![c]);
    reveal(Seq::filter);
    assert(Seq::<char>::empty().filter(client.kanji_only()) == Seq::<char>::empty());
}

} // verus!
