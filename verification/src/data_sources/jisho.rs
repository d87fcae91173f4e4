//! The dictionary service: one lookup per word.

use vstd::prelude::*;

verus! {

pub const JISHO_ADDRESS: &'static str = "https://jisho.org/api/v1";

/// One way to write and read an entry.
#[derive(Debug, PartialEq, Eq)]
pub struct JishoJapanese {
    pub word: Option<String>,
    pub reading: Option<String>,
}

/// One meaning of an entry.
#[derive(Debug, PartialEq, Eq)]
pub struct JishoSense {
    pub english_definitions: Vec<String>,
    pub parts_of_speech: Vec<String>,
    pub info: Vec<String>,
}

/// One entry of the dictionary.
#[derive(Debug, PartialEq, Eq)]
pub struct JishoData {
    pub senses: Vec<JishoSense>,
    pub japanese: Vec<JishoJapanese>,
}

/// What the service answers: the entries found, best first.
#[derive(Debug, PartialEq, Eq)]
pub struct JishoAPIResponse {
    pub data: Vec<JishoData>,
}

pub struct JapaneseView {
    pub word: Option<Seq<char>>,
    pub reading: Option<Seq<char>>,
}

pub struct SenseView {
    pub english_definitions: Seq<Seq<char>>,
    pub parts_of_speech: Seq<Seq<char>>,
    pub info: Seq<Seq<char>>,
}

pub struct EntryView {
    pub senses: Seq<SenseView>,
    pub japanese: Seq<JapaneseView>,
}

pub struct ResponseView {
    pub data: Seq<EntryView>,
}

impl View for JishoJapanese {
    type V = JapaneseView;

    open spec fn view(&self) -> JapaneseView {
        JapaneseView { word: self.word.deep_view(), reading: self.reading.deep_view() }
    }
}

impl View for JishoSense {
    type V = SenseView;

    open spec fn view(&self) -> SenseView {
        SenseView {
            english_definitions: self.english_definitions.deep_view(),
            parts_of_speech: self.parts_of_speech.deep_view(),
            info: self.info.deep_view(),
        }
    }
}

impl View for JishoData {
    type V = EntryView;

    open spec fn view(&self) -> EntryView {
        EntryView {
            senses: self.senses@.map_values(|s: JishoSense| s@),
            japanese: self.japanese@.map_values(|j: JishoJapanese| j@),
        }
    }
}

impl View for JishoAPIResponse {
    type V = ResponseView;

    open spec fn view(&self) -> ResponseView {
        ResponseView { data: self.data@.map_values(|d: JishoData| d@) }
    }
}

/// The address to ask for `word`.
pub open spec fn search_address(word: Seq<char>) -> Seq<char> {
    JISHO_ADDRESS@ + "/search/words?keyword="@ + word
}

/// The address to ask for `word`. The word goes in as it is given.
pub fn search_url(word: &str) -> (url: String)
    ensures
        url@ == search_address(word@),
{
    let mut url = String::from_str(JISHO_ADDRESS);
    url.append("/search/words?keyword=");
    url.append(word);
    url
}

} // verus!
