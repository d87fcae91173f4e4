//! Notes: how one is put together from what the lookup services answered, and
//! how it is handed to the card database.

use vstd::prelude::*;
use crate::data_sources::jisho::{
    search_address, search_url, EntryView, JapaneseView, JishoAPIResponse, JishoJapanese,
    JishoSense, ResponseView, SenseView,
};
use crate::data_sources::kanjiapi::{kanji_address, KanjiAPIClient, KanjiApiResponse, KanjiView};
use crate::error::{
    FetchError, FetchErrorView, SubmitError, SubmitErrorView, SynthesisError, SynthesisErrorView,
};
use crate::text::{contains, join, joined, occurs_in};
use crate::wire::{add_member, array, object, text, text_array, texts, JsonValue, JsonView};

verus! {

/// Where the card database listens.
pub const ANKI_CONNECT_ADDRESS: &'static str = "http://localhost:8765";

/// The version of the card database's protocol that every request names.
pub const ANKI_CONNECT_VERSION: u64 = 6;

/// The note type that every note is filed under.
pub const MODEL_NAME: &'static str = "Basic";

/// The tag that marks where a note came from.
pub const PROVENANCE_TAG: &'static str = "From Rust";

/// How far the card database looks for duplicates of a note.
pub const DUPLICATE_SCOPE: &'static str = "deck";

/// The field of a note that a picture is shown in.
pub const FRONT_FIELD: &'static str = "Front";

/// The name of the file that holds a note's picture.
pub const PICTURE_FILENAME: &'static str = "pic.jpg";

/// The two sides of a note.
#[derive(Debug, PartialEq, Eq)]
pub struct AnkiField {
    pub front: String,
    pub back: String,
}

/// A picture file and the fields it is shown in.
#[derive(Debug, PartialEq, Eq)]
pub struct AnkiPicture {
    pub path: String,
    pub filename: String,
    pub fields: Vec<String>,
}

/// What the card database is to do with a note that it already holds.
#[derive(Debug, PartialEq, Eq)]
pub struct AnkiOption {
    pub allow_duplicate: bool,
    pub duplicate_scope: String,
}

/// A note, complete and ready to be stored.
#[derive(Debug, PartialEq, Eq)]
pub struct AnkiCard {
    deck_name: String,
    model_name: String,
    fields: AnkiField,
    options: AnkiOption,
    tags: Vec<String>,
    picture: Option<AnkiPicture>,
}

pub struct PictureView {
    pub path: Seq<char>,
    pub filename: Seq<char>,
    pub fields: Seq<Seq<char>>,
}

pub struct CardView {
    pub deck_name: Seq<char>,
    pub model_name: Seq<char>,
    pub front: Seq<char>,
    pub back: Seq<char>,
    pub allow_duplicate: bool,
    pub duplicate_scope: Seq<char>,
    pub tags: Seq<Seq<char>>,
    pub picture: Option<PictureView>,
}

impl View for AnkiPicture {
    type V = PictureView;

    open spec fn view(&self) -> PictureView {
        PictureView {
            path: self.path@,
            filename: self.filename@,
            fields: self.fields.deep_view(),
        }
    }
}

impl View for AnkiCard {
    type V = CardView;

    closed spec fn view(&self) -> CardView {
        CardView {
            deck_name: self.deck_name@,
            model_name: self.model_name@,
            front: self.fields.front@,
            back: self.fields.back@,
            allow_duplicate: self.options.allow_duplicate,
            duplicate_scope: self.options.duplicate_scope@,
            tags: self.tags.deep_view(),
            picture: match self.picture {
                Some(p) => Some(p@),
                None => None,
            },
        }
    }
}

impl CardView {
    /// What holds of every note: the fixed note type, the one tag, duplicates
    /// refused within the deck, and a picture, if there is one, under the fixed
    /// file name and shown in the front field alone.
    pub open spec fn is_note(self) -> bool {
        &&& self.model_name == MODEL_NAME@
        &&& self.tags == seq![PROVENANCE_TAG@]
        &&& !self.allow_duplicate
        &&& self.duplicate_scope == DUPLICATE_SCOPE@
        &&& self.picture matches Some(p) ==> {
            &&& p.filename == PICTURE_FILENAME@
            &&& p.fields == seq![FRONT_FIELD@]
        }
    }
}

/// The text or, where there is none, the empty text.
pub open spec fn or_empty(text: Option<Seq<char>>) -> Seq<char> {
    match text {
        Some(s) => s,
        None => Seq::empty(),
    }
}

/// The front of a note: the word, then the sentence.
pub open spec fn front_text(word: Seq<char>, sentence: Seq<char>) -> Seq<char> {
    word + "<br><br>"@ + sentence + "<br><br>"@
}

/// One way to write an entry, with its reading in brackets.
pub open spec fn reading_text(japanese: JapaneseView) -> Seq<char> {
    or_empty(japanese.word) + "【"@ + or_empty(japanese.reading) + "】 "@
}

/// The ways to write an entry, one after another.
pub open spec fn readings_text(japanese: Seq<JapaneseView>) -> Seq<char>
    decreases japanese.len(),
{
    if japanese.len() == 0 {
        Seq::empty()
    } else {
        readings_text(japanese.drop_last()) + reading_text(japanese.last())
    }
}

/// `back` with one sense added: its parts of speech, closed by a line break,
/// unless that very text already stands somewhere in `back`; then a bullet
/// with the definitions and the notes on usage. The search is over all of
/// `back`, so a text that stands there by chance, say inside a definition,
/// counts as well.
pub open spec fn with_sense(back: Seq<char>, sense: SenseView) -> Seq<char> {
    let speech = joined(sense.parts_of_speech, ", "@);
    let headed = if occurs_in(speech, back) {
        back
    } else {
        back + speech + "<br>"@
    };
    headed + "• "@ + joined(sense.english_definitions, ", "@) + " "@ + joined(sense.info, ", "@)
}

/// `back` with the senses added in order.
pub open spec fn with_senses(back: Seq<char>, senses: Seq<SenseView>) -> Seq<char>
    decreases senses.len(),
{
    if senses.len() == 0 {
        back
    } else {
        with_sense(with_senses(back, senses.drop_last()), senses.last())
    }
}

/// What is written for one kanji: the glyph, its meanings, its readings by
/// kind, and an empty line.
pub open spec fn kanji_text(kanji: KanjiView) -> Seq<char> {
    kanji.kanji + "<br>"@ + joined(kanji.meanings, ", "@) + "<br>"@ + "Kun: "@ + joined(
        kanji.kun_readings,
        ", "@,
    ) + "<br>"@ + "On: "@ + joined(kanji.on_readings, ", "@) + "<br>"@ + "Name: "@ + joined(
        kanji.name_readings,
        ", "@,
    ) + "<br>"@ + "<br>"@
}

/// What is written for the kanji of a word, one block each, in order.
pub open spec fn kanji_texts(kanji: Seq<KanjiView>) -> Seq<char>
    decreases kanji.len(),
{
    if kanji.len() == 0 {
        Seq::empty()
    } else {
        kanji_texts(kanji.drop_last()) + kanji_text(kanji.last())
    }
}

/// The back of a note: the readings, the senses, then the kanji.
pub open spec fn back_text(entry: EntryView, kanji: Seq<KanjiView>) -> Seq<char> {
    with_senses(readings_text(entry.japanese) + "<br><br>"@, entry.senses) + "<br><br>"@
        + kanji_texts(kanji)
}

/// The note made of a word, a sentence, a dictionary entry and what is known
/// of the word's kanji. It has no picture yet.
pub open spec fn note(
    word: Seq<char>,
    sentence: Seq<char>,
    deck_name: Seq<char>,
    entry: EntryView,
    kanji: Seq<KanjiView>,
) -> CardView {
    CardView {
        deck_name,
        model_name: MODEL_NAME@,
        front: front_text(word, sentence),
        back: back_text(entry, kanji),
        allow_duplicate: false,
        duplicate_scope: DUPLICATE_SCOPE@,
        tags: seq![PROVENANCE_TAG@],
        picture: None,
    }
}

/// How the dictionary lookup ended.
pub open spec fn dictionary_outcome(
    outcome: Result<JishoAPIResponse, FetchError>,
) -> Result<ResponseView, FetchErrorView> {
    match outcome {
        Ok(found) => Ok(found@),
        Err(e) => Err(e@),
    }
}

/// How one kanji lookup ended.
pub open spec fn kanji_outcome(outcome: Result<KanjiApiResponse, FetchError>) -> Result<
    KanjiView,
    FetchErrorView,
> {
    match outcome {
        Ok(found) => Ok(found@),
        Err(e) => Err(e@),
    }
}

/// How the kanji lookups ended, in the word's order.
pub open spec fn kanji_outcomes(outcomes: Seq<Result<KanjiApiResponse, FetchError>>) -> Seq<
    Result<KanjiView, FetchErrorView>,
> {
    outcomes.map_values(|o: Result<KanjiApiResponse, FetchError>| kanji_outcome(o))
}

/// How a synthesis ended.
pub open spec fn synthesis_outcome(outcome: Result<AnkiCard, SynthesisError>) -> Result<
    CardView,
    SynthesisErrorView,
> {
    match outcome {
        Ok(card) => Ok(card@),
        Err(e) => Err(e@),
    }
}

/// Every lookup of the list succeeded.
pub open spec fn all_found(outcomes: Seq<Result<KanjiView, FetchErrorView>>) -> bool {
    forall|i: int| 0 <= i < outcomes.len() ==> (#[trigger] outcomes[i]) is Ok
}

/// The lookup at `at` failed, and none before it did.
pub open spec fn fails_first_at(outcomes: Seq<Result<KanjiView, FetchErrorView>>, at: int) -> bool {
    &&& 0 <= at < outcomes.len()
    &&& outcomes[at] is Err
    &&& forall|i: int| 0 <= i < at ==> (#[trigger] outcomes[i]) is Ok
}

/// What the lookups found, where all of them succeeded.
pub open spec fn found(outcomes: Seq<Result<KanjiView, FetchErrorView>>) -> Seq<KanjiView> {
    outcomes.map_values(|o: Result<KanjiView, FetchErrorView>| o->Ok_0)
}

/// What becomes of a request once every lookup has ended. A failed dictionary
/// lookup decides alone; then an answer without entries; then the first kanji
/// lookup that failed, whatever came after it. Only where nothing failed is
/// there a note, made of the first entry.
pub open spec fn synthesis(
    word: Seq<char>,
    sentence: Seq<char>,
    deck_name: Seq<char>,
    dictionary: Result<ResponseView, FetchErrorView>,
    kanji: Seq<Result<KanjiView, FetchErrorView>>,
) -> Result<CardView, SynthesisErrorView> {
    match dictionary {
        Err(e) => Err(SynthesisErrorView::Dictionary(e)),
        Ok(answer) => if answer.data.len() == 0 {
            Err(SynthesisErrorView::EmptyResult)
        } else if all_found(kanji) {
            Ok(note(word, sentence, deck_name, answer.data[0], found(kanji)))
        } else {
            let at = choose|at: int| fails_first_at(kanji, at);
            Err(SynthesisErrorView::Character(kanji[at]->Err_0))
        },
    }
}

fn text_or_empty(text: &Option<String>) -> (out: &str)
    ensures
        out@ == or_empty(text.deep_view()),
{
    match text {
        Some(s) => s.as_str(),
        None => {
            proof {
                reveal_strlit("");
                assert(""@ =~= Seq::<char>::empty());
            }
            ""
        },
    }
}

fn reading_item(japanese: &JishoJapanese) -> (out: String)
    ensures
        out@ == reading_text(japanese@),
{
    let mut out = String::from_str(text_or_empty(&japanese.word));
    out.append("【");
    out.append(text_or_empty(&japanese.reading));
    out.append("】 ");
    out
}

fn readings_block(japanese: &Vec<JishoJapanese>) -> (out: String)
    ensures
        out@ == readings_text(japanese@.map_values(|j: JishoJapanese| j@)),
{
    let ghost all = japanese@.map_values(|j: JishoJapanese| j@);
    let mut out = String::new();
    let mut i: usize = 0;
    while i < japanese.len()
        invariant
            i <= japanese.len(),
            all == japanese@.map_values(|j: JishoJapanese| j@),
            out@ == readings_text(all.take(i as int)),
        decreases japanese.len() - i,
    {
        let item = reading_item(&japanese[i]);
        out.append(item.as_str());
        proof {
            assert(all.take(i + 1).drop_last() == all.take(i as int));
            assert(all.take(i + 1).last() == japanese@[i as int]@);
        }
        i += 1;
    }
    proof {
        assert(all.take(japanese.len() as int) == all);
    }
    out
}

fn add_sense(back: &mut String, sense: &JishoSense)
    ensures
        final(back)@ == with_sense(old(back)@, sense@),
{
    let speech = join(&sense.parts_of_speech, ", ");
    let meaning = join(&sense.english_definitions, ", ");
    let info = join(&sense.info, ", ");
    if !contains(back.as_str(), speech.as_str()) {
        back.append(speech.as_str());
        back.append("<br>");
    }
    back.append("• ");
    back.append(meaning.as_str());
    back.append(" ");
    back.append(info.as_str());
}

fn add_senses(back: &mut String, senses: &Vec<JishoSense>)
    ensures
        final(back)@ == with_senses(old(back)@, senses@.map_values(|s: JishoSense| s@)),
{
    let ghost all = senses@.map_values(|s: JishoSense| s@);
    let mut i: usize = 0;
    while i < senses.len()
        invariant
            i <= senses.len(),
            all == senses@.map_values(|s: JishoSense| s@),
            back@ == with_senses(old(back)@, all.take(i as int)),
        decreases senses.len() - i,
    {
        add_sense(back, &senses[i]);
        proof {
            assert(all.take(i + 1).drop_last() == all.take(i as int));
            assert(all.take(i + 1).last() == senses@[i as int]@);
        }
        i += 1;
    }
    proof {
        assert(all.take(senses.len() as int) == all);
    }
}

fn kanji_block(kanji: &KanjiApiResponse) -> (out: String)
    ensures
        out@ == kanji_text(kanji@),
{
    let mut out = kanji.kanji.clone();
    out.append("<br>");
    out.append(join(&kanji.meanings, ", ").as_str());
    out.append("<br>");
    out.append("Kun: ");
    out.append(join(&kanji.kun_readings, ", ").as_str());
    out.append("<br>");
    out.append("On: ");
    out.append(join(&kanji.on_readings, ", ").as_str());
    out.append("<br>");
    out.append("Name: ");
    out.append(join(&kanji.name_readings, ", ").as_str());
    out.append("<br>");
    out.append("<br>");
    out
}

fn kanji_blocks(outcomes: &Vec<Result<KanjiApiResponse, FetchError>>) -> (r: Result<
    String,
    FetchError,
>)
    ensures
        match r {
            Ok(text) => {
                &&& all_found(kanji_outcomes(outcomes@))
                &&& text@ == kanji_texts(found(kanji_outcomes(outcomes@)))
            },
            Err(e) => exists|at: int|
                {
                    &&& fails_first_at(kanji_outcomes(outcomes@), at)
                    &&& kanji_outcomes(outcomes@)[at] == Err::<KanjiView, FetchErrorView>(e@)
                },
        },
{
    let ghost all = kanji_outcomes(outcomes@);
    let mut text = String::new();
    let mut i: usize = 0;
    while i < outcomes.len()
        invariant
            i <= outcomes.len(),
            all == kanji_outcomes(outcomes@),
            forall|k: int| 0 <= k < i ==> (#[trigger] all[k]) is Ok,
            text@ == kanji_texts(found(all).take(i as int)),
        decreases outcomes.len() - i,
    {
        match &outcomes[i] {
            Err(e) => {
                let first = e.duplicate();
                proof {
                    assert(all[i as int] == kanji_outcome(outcomes@[i as int]));
                    assert(fails_first_at(all, i as int));
                }
                return Err(first);
            },
            Ok(kanji) => {
                let block = kanji_block(kanji);
                text.append(block.as_str());
                proof {
                    assert(all[i as int] == kanji_outcome(outcomes@[i as int]));
                    assert(found(all).take(i + 1).drop_last() == found(all).take(i as int));
                    assert(found(all).take(i + 1).last() == kanji@);
                }
            },
        }
        i += 1;
    }
    proof {
        assert(found(all).take(outcomes.len() as int) == found(all));
    }
    Ok(text)
}

impl AnkiCard {
    #[verifier::type_invariant]
    spec fn well_formed(&self) -> bool {
        self@.is_note()
    }
}

/// Makes the note for `word` and `sentence` once every lookup has ended:
/// `jisho_response` is how the dictionary lookup for `word` ended, and
/// `kanjiapi_responses` how the lookup of each kanji of the word ended, in the
/// word's order. All of them are taken as ended; none is asked again.
pub fn create_card(
    word: &str,
    sentence: &str,
    deck_name: &str,
    jisho_response: &Result<JishoAPIResponse, FetchError>,
    kanjiapi_responses: &Vec<Result<KanjiApiResponse, FetchError>>,
) -> (made: Result<AnkiCard, SynthesisError>)
    ensures
        synthesis_outcome(made) == synthesis(
            word@,
            sentence@,
            deck_name@,
            dictionary_outcome(*jisho_response),
            kanji_outcomes(kanjiapi_responses@),
        ),
        made matches Ok(card) ==> card@.is_note(),
{
    let jisho_data = match jisho_response {
        Err(jisho_error) => {
            return Err(SynthesisError::Dictionary(jisho_error.duplicate()));
        },
        Ok(jisho_data) => jisho_data,
    };
    if jisho_data.data.len() == 0 {
        return Err(SynthesisError::EmptyResult);
    }
    let jisho_info = &jisho_data.data[0];
    assert(jisho_data@.data[0] == jisho_info@);

    let mut front = String::from_str(word);
    front.append("<br><br>");
    front.append(sentence);
    front.append("<br><br>");

    let mut back = readings_block(&jisho_info.japanese);
    back.append("<br><br>");
    add_senses(&mut back, &jisho_info.senses);
    back.append("<br><br>");

    let ghost outcomes = kanji_outcomes(kanjiapi_responses@);
    match kanji_blocks(kanjiapi_responses) {
        Err(kanjiapi_error) => {
            proof {
                let at = choose|at: int|
                    {
                        &&& fails_first_at(outcomes, at)
                        &&& outcomes[at] == Err::<KanjiView, FetchErrorView>(kanjiapi_error@)
                    };
                let chosen = choose|at: int| fails_first_at(outcomes, at);
                assert(fails_first_at(outcomes, chosen));
                assert(chosen == at);
                assert(!all_found(outcomes));
            }
            return Err(SynthesisError::Character(kanjiapi_error));
        },
        Ok(blocks) => {
            back.append(blocks.as_str());
        },
    }

    let mut tags: Vec<String> = Vec::new();
    tags.push(String::from_str(PROVENANCE_TAG));
    assert(tags.deep_view() =~= seq![PROVENANCE_TAG@]);

    let created_card = AnkiCard {
        deck_name: String::from_str(deck_name),
        model_name: String::from_str(MODEL_NAME),
        fields: AnkiField { front, back },
        options: AnkiOption {
            allow_duplicate: false,
            duplicate_scope: String::from_str(DUPLICATE_SCOPE),
        },
        tags,
        picture: None,
    };
    Ok(created_card)
}

/// The file that a note's picture is looked for in.
pub open spec fn picture_path(current_dir: Seq<char>) -> Seq<char> {
    current_dir + "\\"@ + PICTURE_FILENAME@
}

/// `card` with the picture that lies in `current_dir`.
pub open spec fn with_picture(card: CardView, current_dir: Seq<char>) -> CardView {
    CardView {
        picture: Some(
            PictureView {
                path: picture_path(current_dir),
                filename: PICTURE_FILENAME@,
                fields: seq![FRONT_FIELD@],
            },
        ),
        ..card
    }
}

/// How writing the picture ended, if one was given.
pub open spec fn saved_view(saved: Option<Result<(), String>>) -> Option<Result<(), Seq<char>>> {
    match saved {
        None => None,
        Some(Ok(())) => Some(Ok(())),
        Some(Err(cause)) => Some(Err(cause@)),
    }
}

/// What becomes of a note once its picture is dealt with: without a picture
/// the note stays as it is; a picture that was written is attached; one that
/// could not be written ends the request.
pub open spec fn pictured(
    card: CardView,
    current_dir: Seq<char>,
    saved: Option<Result<(), Seq<char>>>,
) -> Result<CardView, SynthesisErrorView> {
    match saved {
        None => Ok(card),
        Some(Ok(())) => Ok(with_picture(card, current_dir)),
        Some(Err(cause)) => Err(SynthesisErrorView::Picture(cause)),
    }
}

impl AnkiCard {
    /// The last step of making a note. Where the user gave a picture, the
    /// caller has by now tried to write it to `PICTURE_FILENAME` in
    /// `current_dir`, and `saved` tells how that ended; `None` stands for no
    /// picture.
    pub fn attach_picture(self, current_dir: &str, saved: Option<Result<(), String>>) -> (made:
        Result<AnkiCard, SynthesisError>)
        ensures
            synthesis_outcome(made) == pictured(self@, current_dir@, saved_view(saved)),
            made matches Ok(card) ==> card@.is_note(),
    {
        proof {
            use_type_invariant(&self);
        }
        match saved {
            None => Ok(self),
            Some(Err(cause)) => Err(SynthesisError::Picture(cause)),
            Some(Ok(())) => {
                let mut path = String::from_str(current_dir);
                path.append("\\");
                path.append(PICTURE_FILENAME);
                let mut fields: Vec<String> = Vec::new();
                fields.push(String::from_str(FRONT_FIELD));
                assert(fields.deep_view() =~= seq![FRONT_FIELD@]);
                let picture = AnkiPicture {
                    path,
                    filename: String::from_str(PICTURE_FILENAME),
                    fields,
                };
                let AnkiCard { deck_name, model_name, fields, options, tags, picture: _ } = self;
                Ok(AnkiCard { deck_name, model_name, fields, options, tags, picture: Some(picture) })
            },
        }
    }

    /// The deck that the note goes to.
    pub fn deck_name(&self) -> (name: &String)
        ensures
            name@ == self@.deck_name,
    {
        &self.deck_name
    }

    /// The note type.
    pub fn model_name(&self) -> (name: &String)
        ensures
            name@ == self@.model_name,
            name@ == MODEL_NAME@,
    {
        proof {
            use_type_invariant(self);
        }
        &self.model_name
    }

    /// The front of the note.
    pub fn front(&self) -> (side: &String)
        ensures
            side@ == self@.front,
    {
        &self.fields.front
    }

    /// The back of the note.
    pub fn back(&self) -> (side: &String)
        ensures
            side@ == self@.back,
    {
        &self.fields.back
    }

    /// What the card database is to do with a duplicate.
    pub fn options(&self) -> (options: &AnkiOption)
        ensures
            options.allow_duplicate == self@.allow_duplicate,
            options.duplicate_scope@ == self@.duplicate_scope,
            !options.allow_duplicate,
            options.duplicate_scope@ == DUPLICATE_SCOPE@,
    {
        proof {
            use_type_invariant(self);
        }
        &self.options
    }

    /// The tags of the note.
    pub fn tags(&self) -> (tags: &Vec<String>)
        ensures
            tags.deep_view() == self@.tags,
            tags.deep_view() == seq![PROVENANCE_TAG@],
    {
        proof {
            use_type_invariant(self);
        }
        &self.tags
    }

    /// The picture of the note, if it has one.
    pub fn picture(&self) -> (picture: &Option<AnkiPicture>)
        ensures
            picture matches Some(p) ==> self@.picture == Some(p@),
            picture is None ==> self@.picture is None,
            self@.is_note(),
    {
        proof {
            use_type_invariant(self);
        }
        &self.picture
    }
}

/// The lookups that one request for a note needs: one of the dictionary, for
/// the word as it was given, and one for each kanji of the word.
#[derive(Debug, PartialEq, Eq)]
pub struct LookupPlan {
    pub dictionary: String,
    pub kanji: Vec<String>,
}

impl LookupPlan {
    /// Every address of the plan, the dictionary's first.
    pub open spec fn addresses(&self) -> Seq<Seq<char>> {
        seq![self.dictionary@] + self.kanji.deep_view()
    }
}

/// The addresses to ask for the characters of `word`, one for each position.
pub open spec fn kanji_addresses(word: Seq<char>) -> Seq<Seq<char>> {
    word.map_values(|c: char| kanji_address(c))
}

/// One lookup for each character of `word`, in order. A character that
/// stands twice is looked up twice.
pub fn kanji_requests(kanjiapi_client: &KanjiAPIClient, word: String) -> (reqs: Vec<String>)
    ensures
        reqs.deep_view() == kanji_addresses(word@),
{
    let mut reqs: Vec<String> = Vec::new();
    for kanji in it: word.as_str().chars()
        invariant
            it.seq() == word@,
            reqs@.len() == it.index(),
            forall|k: int| 0 <= k < reqs@.len() ==> (#[trigger] reqs@[k])@ == kanji_address(word@[k]),
    {
        reqs.push(kanjiapi_client.kanji_url(kanji));
    }
    proof {
        assert(reqs.deep_view() =~= kanji_addresses(word@));
    }
    reqs
}

/// The lookups to make for `word`.
pub fn plan_lookups(kanjiapi_client: &KanjiAPIClient, word: &str) -> (plan: LookupPlan)
    ensures
        plan.dictionary@ == search_address(word@),
        plan.kanji.deep_view() == kanji_addresses(kanjiapi_client.normalized(word@)),
        plan.addresses().len() == 1 + kanjiapi_client.normalized(word@).len(),
{
    let clean_word = kanjiapi_client.remove_all_but_kanji(word);
    LookupPlan { dictionary: search_url(word), kanji: kanji_requests(kanjiapi_client, clean_word) }
}

/// The request for the names of the decks.
pub open spec fn deck_names_json() -> JsonView {
    JsonView::Object(
        seq![
            ("action"@, JsonView::Text("deckNames"@)),
            ("version"@, JsonView::Number(ANKI_CONNECT_VERSION)),
        ],
    )
}

/// A picture as the card database reads it.
pub open spec fn picture_json(picture: PictureView) -> JsonView {
    JsonView::Object(
        seq![
            ("path"@, JsonView::Text(picture.path)),
            ("filename"@, JsonView::Text(picture.filename)),
            ("fields"@, texts(picture.fields)),
        ],
    )
}

/// The members of a note that are always there.
pub open spec fn note_members(card: CardView) -> Seq<(Seq<char>, JsonView)> {
    seq![
        ("deckName"@, JsonView::Text(card.deck_name)),
        ("modelName"@, JsonView::Text(card.model_name)),
        (
            "fields"@,
            JsonView::Object(
                seq![
                    ("Front"@, JsonView::Text(card.front)),
                    ("Back"@, JsonView::Text(card.back)),
                ],
            ),
        ),
        (
            "options"@,
            JsonView::Object(
                seq![
                    ("allowDuplicate"@, JsonView::Bool(card.allow_duplicate)),
                    ("duplicateScope"@, JsonView::Text(card.duplicate_scope)),
                ],
            ),
        ),
        ("tags"@, texts(card.tags)),
    ]
}

/// A note as the card database reads it. The member `picture` is there only
/// for a note that has a picture, and is then a list of that one picture.
pub open spec fn note_json(card: CardView) -> JsonView {
    JsonView::Object(
        match card.picture {
            None => note_members(card),
            Some(picture) => note_members(card).push(
                ("picture"@, JsonView::Array(seq![picture_json(picture)])),
            ),
        },
    )
}

/// The request to store a note.
pub open spec fn add_note_json(card: CardView) -> JsonView {
    JsonView::Object(
        seq![
            ("action"@, JsonView::Text("addNote"@)),
            ("version"@, JsonView::Number(ANKI_CONNECT_VERSION)),
            ("params"@, JsonView::Object(seq![("note"@, note_json(card))])),
        ],
    )
}

/// The request for the names of the decks.
pub fn deck_names_request() -> (request: JsonValue)
    ensures
        request@ == deck_names_json(),
{
    let mut members: Vec<(String, JsonValue)> = Vec::new();
    add_member(&mut members, "action", text("deckNames"));
    add_member(&mut members, "version", JsonValue::Number(ANKI_CONNECT_VERSION));
    let request = object(members);
    proof {
        assert(request@->Object_0 =~= deck_names_json()->Object_0);
    }
    request
}

fn picture_value(picture: &AnkiPicture) -> (value: JsonValue)
    ensures
        value@ == picture_json(picture@),
{
    let mut members: Vec<(String, JsonValue)> = Vec::new();
    add_member(&mut members, "path", text(picture.path.as_str()));
    add_member(&mut members, "filename", text(picture.filename.as_str()));
    add_member(&mut members, "fields", text_array(&picture.fields));
    let value = object(members);
    proof {
        assert(value@->Object_0 =~= picture_json(picture@)->Object_0);
    }
    value
}

fn note_value(card: &AnkiCard) -> (value: JsonValue)
    ensures
        value@ == note_json(card@),
{
    let mut fields: Vec<(String, JsonValue)> = Vec::new();
    add_member(&mut fields, "Front", text(card.fields.front.as_str()));
    add_member(&mut fields, "Back", text(card.fields.back.as_str()));
    let fields = object(fields);
    assert(fields@->Object_0 =~= seq![
        ("Front"@, JsonView::Text(card@.front)),
        ("Back"@, JsonView::Text(card@.back)),
    ]);

    let mut options: Vec<(String, JsonValue)> = Vec::new();
    add_member(&mut options, "allowDuplicate", JsonValue::Bool(card.options.allow_duplicate));
    add_member(&mut options, "duplicateScope", text(card.options.duplicate_scope.as_str()));
    let options = object(options);
    assert(options@->Object_0 =~= seq![
        ("allowDuplicate"@, JsonView::Bool(card@.allow_duplicate)),
        ("duplicateScope"@, JsonView::Text(card@.duplicate_scope)),
    ]);

    let mut members: Vec<(String, JsonValue)> = Vec::new();
    add_member(&mut members, "deckName", text(card.deck_name.as_str()));
    add_member(&mut members, "modelName", text(card.model_name.as_str()));
    add_member(&mut members, "fields", fields);
    add_member(&mut members, "options", options);
    add_member(&mut members, "tags", text_array(&card.tags));
    if let Some(picture) = &card.picture {
        let mut pictures: Vec<JsonValue> = Vec::new();
        pictures.push(picture_value(picture));
        let pictures = array(pictures);
        assert(pictures@->Array_0 =~= seq![picture_json(picture@)]);
        add_member(&mut members, "picture", pictures);
    }
    let value = object(members);
    proof {
        assert(value@->Object_0 =~= note_json(card@)->Object_0);
    }
    value
}

/// The request to store `card`.
pub fn add_note_request(card: &AnkiCard) -> (request: JsonValue)
    ensures
        request@ == add_note_json(card@),
        card@.is_note(),
{
    proof {
        use_type_invariant(card);
    }
    let mut params: Vec<(String, JsonValue)> = Vec::new();
    add_member(&mut params, "note", note_value(card));
    let params = object(params);
    assert(params@->Object_0 =~= seq![("note"@, note_json(card@))]);

    let mut members: Vec<(String, JsonValue)> = Vec::new();
    add_member(&mut members, "action", text("addNote"));
    add_member(&mut members, "version", JsonValue::Number(ANKI_CONNECT_VERSION));
    add_member(&mut members, "params", params);
    let request = object(members);
    proof {
        assert(request@->Object_0 =~= add_note_json(card@)->Object_0);
    }
    request
}

/// What the card database answers to a request to store a note.
#[derive(Debug, PartialEq, Eq)]
pub struct PostAnkiCardResponse {
    /// The number of the stored note.
    pub result: Option<u64>,
    /// Why the request was refused.
    pub error: Option<String>,
}

/// What the card database answers to a request for the names of the decks.
#[derive(Debug, PartialEq, Eq)]
pub struct GetDeckResponse {
    /// The names of the decks.
    pub result: Option<Vec<String>>,
    /// Why the request was refused.
    pub error: Option<String>,
}

pub struct PostReplyView {
    pub result: Option<u64>,
    pub error: Option<Seq<char>>,
}

pub struct DeckReplyView {
    pub result: Option<Seq<Seq<char>>>,
    pub error: Option<Seq<char>>,
}

impl View for PostAnkiCardResponse {
    type V = PostReplyView;

    open spec fn view(&self) -> PostReplyView {
        PostReplyView { result: self.result, error: self.error.deep_view() }
    }
}

impl View for GetDeckResponse {
    type V = DeckReplyView;

    open spec fn view(&self) -> DeckReplyView {
        DeckReplyView { result: self.result.deep_view(), error: self.error.deep_view() }
    }
}

/// The cause given where an answer holds no result.
pub const MISSING_RESULT: &'static str = "the answer holds no result";

/// How a request to store a note ended, as the transport saw it.
pub open spec fn post_outcome(reply: Result<PostAnkiCardResponse, FetchError>) -> Result<
    PostReplyView,
    FetchErrorView,
> {
    match reply {
        Ok(answer) => Ok(answer@),
        Err(e) => Err(e@),
    }
}

/// How a request for the names of the decks ended, as the transport saw it.
pub open spec fn deck_outcome(reply: Result<GetDeckResponse, FetchError>) -> Result<
    DeckReplyView,
    FetchErrorView,
> {
    match reply {
        Ok(answer) => Ok(answer@),
        Err(e) => Err(e@),
    }
}

/// What a request to store a note came to. A failure of the transport stays
/// what it was. An answer that names an error is a refusal, whatever else it
/// holds; one without error and without result has not the expected shape.
pub open spec fn stored_note(reply: Result<PostReplyView, FetchErrorView>) -> Result<
    u64,
    SubmitErrorView,
> {
    match reply {
        Err(FetchErrorView::Network(cause)) => Err(SubmitErrorView::Network(cause)),
        Err(FetchErrorView::Decode(cause)) => Err(SubmitErrorView::Decode(cause)),
        Ok(answer) => match answer.error {
            Some(reason) => Err(SubmitErrorView::RemoteRejection(reason)),
            None => match answer.result {
                Some(id) => Ok(id),
                None => Err(SubmitErrorView::Decode(MISSING_RESULT@)),
            },
        },
    }
}

/// What a request for the names of the decks came to. A failure of the
/// transport stays what it was; an answer without result has not the expected
/// shape.
pub open spec fn listed_decks(reply: Result<DeckReplyView, FetchErrorView>) -> Result<
    Seq<Seq<char>>,
    FetchErrorView,
> {
    match reply {
        Err(e) => Err(e),
        Ok(answer) => match answer.result {
            Some(names) => Ok(names),
            None => Err(FetchErrorView::Decode(MISSING_RESULT@)),
        },
    }
}

/// The number of the stored note, or why there is none.
pub fn note_id(reply: Result<PostAnkiCardResponse, FetchError>) -> (r: Result<u64, SubmitError>)
    ensures
        match r {
            Ok(id) => stored_note(post_outcome(reply)) == Ok::<u64, SubmitErrorView>(id),
            Err(e) => stored_note(post_outcome(reply)) == Err::<u64, SubmitErrorView>(e@),
        },
{
    match reply {
        Err(FetchError::Network(cause)) => Err(SubmitError::Network(cause)),
        Err(FetchError::Decode(cause)) => Err(SubmitError::Decode(cause)),
        Ok(answer) => match answer.error {
            Some(reason) => Err(SubmitError::RemoteRejection(reason)),
            None => match answer.result {
                Some(id) => Ok(id),
                None => Err(SubmitError::Decode(String::from_str(MISSING_RESULT))),
            },
        },
    }
}

/// The names of the decks, or why there are none.
pub fn deck_names(reply: Result<GetDeckResponse, FetchError>) -> (r: Result<
    Vec<String>,
    FetchError,
>)
    ensures
        match r {
            Ok(names) => listed_decks(deck_outcome(reply)) == Ok::<
                Seq<Seq<char>>,
                FetchErrorView,
            >(names.deep_view()),
            Err(e) => listed_decks(deck_outcome(reply)) == Err::<Seq<Seq<char>>, FetchErrorView>(
                e@,
            ),
        },
{
    match reply {
        Err(e) => Err(e),
        Ok(answer) => match answer.result {
            Some(names) => Ok(names),
            None => Err(FetchError::Decode(String::from_str(MISSING_RESULT))),
        },
    }
}

/// A failed dictionary lookup ends the request with its own cause, whatever
/// the kanji lookups came to.
pub proof fn dictionary_failure_decides(
    word: Seq<char>,
    sentence: Seq<char>,
    deck_name: Seq<char>,
    cause: FetchErrorView,
    kanji: Seq<Result<KanjiView, FetchErrorView>>,
)
    ensures
        synthesis(word, sentence, deck_name, Err(cause), kanji) == Err::<
            CardView,
            SynthesisErrorView,
        >(SynthesisErrorView::Dictionary(cause)),
{
}

/// A dictionary answer without entries ends the request with `EmptyResult`,
/// whatever the kanji lookups came to.
pub proof fn no_entry_is_empty_result(
    word: Seq<char>,
    sentence: Seq<char>,
    deck_name: Seq<char>,
    answer: ResponseView,
    kanji: Seq<Result<KanjiView, FetchErrorView>>,
)
    requires
        answer.data.len() == 0,
    ensures
        synthesis(word, sentence, deck_name, Ok(answer), kanji) == Err::<
            CardView,
            SynthesisErrorView,
        >(SynthesisErrorView::EmptyResult),
{
}

/// Where the dictionary gave an entry, the first kanji lookup that failed
/// ends the request with its own cause. What the lookups after it came to
/// changes nothing: a second list that agrees with the first up to and with
/// that lookup ends the same way.
pub proof fn first_failure_decides(
    word: Seq<char>,
    sentence: Seq<char>,
    deck_name: Seq<char>,
    answer: ResponseView,
    kanji: Seq<Result<KanjiView, FetchErrorView>>,
    other: Seq<Result<KanjiView, FetchErrorView>>,
    at: int,
)
    requires
        answer.data.len() > 0,
        fails_first_at(kanji, at),
        other.len() > at,
        other.take(at + 1) == kanji.take(at + 1),
    ensures
        synthesis(word, sentence, deck_name, Ok(answer), kanji) == Err::<
            CardView,
            SynthesisErrorView,
        >(SynthesisErrorView::Character(kanji[at]->Err_0)),
        synthesis(word, sentence, deck_name, Ok(answer), other) == synthesis(
            word,
            sentence,
            deck_name,
            Ok(answer),
            kanji,
        ),
{
    let chosen = choose|i: int| fails_first_at(kanji, i);
    assert(chosen == at);
    assert forall|i: int| 0 <= i <= at implies other[i] == kanji[i] by {
        assert(other[i] == other.take(at + 1)[i]);
        assert(kanji[i] == kanji.take(at + 1)[i]);
    }
    assert(fails_first_at(other, at));
    let chosen_other = choose|i: int| fails_first_at(other, i);
    assert(chosen_other == at);
}

/// Nothing failed: the request ends with the note, made of the first entry
/// and of what every kanji lookup found, in the word's order.
pub proof fn success_gives_the_note(
    word: Seq<char>,
    sentence: Seq<char>,
    deck_name: Seq<char>,
    answer: ResponseView,
    kanji: Seq<Result<KanjiView, FetchErrorView>>,
)
    requires
        answer.data.len() > 0,
        all_found(kanji),
    ensures
        synthesis(word, sentence, deck_name, Ok(answer), kanji) == Ok::<
            CardView,
            SynthesisErrorView,
        >(note(word, sentence, deck_name, answer.data[0], found(kanji))),
        note(word, sentence, deck_name, answer.data[0], found(kanji)).is_note(),
{
}

/// Each kanji of a word gets a block of its own on the back, in the word's
/// order; one that stands twice is asked for twice at the same address and
/// written twice.
pub proof fn repeated_kanji_is_repeated(word: Seq<char>, i: int, j: int, seen: Seq<KanjiView>, kanji: KanjiView)
    requires
        0 <= i < word.len(),
        0 <= j < word.len(),
        word[i] == word[j],
    ensures
        kanji_addresses(word).len() == word.len(),
        kanji_addresses(word)[i] == kanji_addresses(word)[j],
        kanji_texts(seen.push(kanji)) == kanji_texts(seen) + kanji_text(kanji),
        kanji_texts(seen.push(kanji).push(kanji)) == kanji_texts(seen) + kanji_text(kanji)
            + kanji_text(kanji),
{
    assert(seen.push(kanji).drop_last() == seen);
    assert(seen.push(kanji).push(kanji).drop_last() == seen.push(kanji));
}

/// A note without a picture is sent without a member `picture`. A note with
/// a picture is sent with that member, which is a list of exactly one picture,
/// and that picture is shown in the front field alone. Either way the note is
/// what the request to store it names under `params` as `note`.
pub proof fn picture_member_follows_picture(card: CardView)
    requires
        card.is_note(),
    ensures
        add_note_json(card).has_key("params"@),
        add_note_json(card).member("params"@).has_key("note"@),
        add_note_json(card).member("params"@).member("note"@) == note_json(card),
        card.picture is None ==> !note_json(card).has_key("picture"@),
        card.picture matches Some(picture) ==> {
            &&& note_json(card).has_key("picture"@)
            &&& note_json(card).member("picture"@) == JsonView::Array(seq![picture_json(picture)])
            &&& picture_json(picture).has_key("fields"@)
            &&& picture_json(picture).member("fields"@) == texts(seq![FRONT_FIELD@])
        },
{
    reveal_strlit("action");
    reveal_strlit("version");
    reveal_strlit("params");
    reveal_strlit("note");
    reveal_strlit("deckName");
    reveal_strlit("modelName");
    reveal_strlit("fields");
    reveal_strlit("options");
    reveal_strlit("tags");
    reveal_strlit("picture");
    reveal_strlit("path");
    reveal_strlit("filename");

    let request = add_note_json(card)->Object_0;
    assert(request[2].0 == "params"@);
    assert(request[0].0[0] != "params"@[0]);
    assert(request[1].0[0] != "params"@[0]);
    let params = request[2].1;
    assert(add_note_json(card).member("params"@) == params);
    assert(params->Object_0[0].0 == "note"@);
    assert(params.member("note"@) == note_json(card));

    let members = note_json(card)->Object_0;
    assert(members[0].0.len() != "picture"@.len());
    assert(members[1].0.len() != "picture"@.len());
    assert(members[2].0.len() != "picture"@.len());
    assert(members[3].0[0] != "picture"@[0]);
    assert(members[4].0.len() != "picture"@.len());
    match card.picture {
        None => {
            assert(members.len() == 5);
        },
        Some(picture) => {
            assert(members[5].0 == "picture"@);
            assert(note_json(card).member("picture"@) == members[5].1);
            let parts = picture_json(picture)->Object_0;
            assert(parts[2].0 == "fields"@);
            assert(parts[0].0.len() != "fields"@.len());
            assert(parts[1].0.len() != "fields"@.len());
            assert(picture_json(picture).member("fields"@) == parts[2].1);
        },
    }
}

} // verus!
