use anki_card_creator::ankiconnect::{create_card, AnkiCard, AnkiPicture};
use anki_card_creator::data_sources::jisho::{
    JishoAPIResponse, JishoData, JishoJapanese, JishoSense,
};
use anki_card_creator::data_sources::kanjiapi::KanjiApiResponse;
use anki_card_creator::error::{FetchError, SynthesisError};

fn strings(items: &[&str]) -> Vec<String> {
    items.iter().map(|s| s.to_string()).collect()
}

fn sense(pos: &[&str], defs: &[&str], info: &[&str]) -> JishoSense {
    JishoSense {
        english_definitions: strings(defs),
        parts_of_speech: strings(pos),
        info: strings(info),
    }
}

fn japanese(word: Option<&str>, reading: Option<&str>) -> JishoJapanese {
    JishoJapanese { word: word.map(|s| s.to_string()), reading: reading.map(|s| s.to_string()) }
}

fn entry(japanese: Vec<JishoJapanese>, senses: Vec<JishoSense>) -> JishoData {
    JishoData { senses, japanese }
}

fn kanji(glyph: &str, meanings: &[&str], kun: &[&str], on: &[&str], name: &[&str]) -> KanjiApiResponse {
    KanjiApiResponse {
        kanji: glyph.to_string(),
        meanings: strings(meanings),
        kun_readings: strings(kun),
        on_readings: strings(on),
        name_readings: strings(name),
    }
}

fn cat_entry() -> JishoData {
    entry(vec![japanese(Some("猫"), Some("ねこ"))], vec![sense(&["Noun"], &["cat"], &[])])
}

fn cat_kanji() -> KanjiApiResponse {
    kanji("猫", &["cat"], &["ねこ"], &[], &[])
}

fn found(entries: Vec<JishoData>) -> Result<JishoAPIResponse, FetchError> {
    Ok(JishoAPIResponse { data: entries })
}

fn cat_card() -> AnkiCard {
    create_card("猫", "猫が好き", "Japanese", &found(vec![cat_entry()]), &vec![Ok(cat_kanji())])
        .unwrap()
}

#[test]
fn cat_fixture_back_text() {
    let card = cat_card();
    assert_eq!(
        card.back(),
        "猫【ねこ】 <br><br>Noun<br>• cat <br><br>猫<br>cat<br>Kun: ねこ<br>On: <br>Name: <br><br>"
    );
}

#[test]
fn cat_fixture_front_and_fixed_parts() {
    let card = cat_card();
    assert_eq!(card.front(), "猫<br><br>猫が好き<br><br>");
    assert_eq!(card.deck_name(), "Japanese");
    assert_eq!(card.model_name(), "Basic");
    assert_eq!(card.tags(), &vec!["From Rust".to_string()]);
    assert!(!card.options().allow_duplicate);
    assert_eq!(card.options().duplicate_scope, "deck");
    assert_eq!(card.picture(), &None);
}

#[test]
fn dictionary_failure_wins_over_everything() {
    let failed: Result<JishoAPIResponse, FetchError> =
        Err(FetchError::Network("connection refused".to_string()));
    let all_fine = create_card("猫", "s", "d", &failed, &vec![Ok(cat_kanji())]);
    assert_eq!(
        all_fine,
        Err(SynthesisError::Dictionary(FetchError::Network("connection refused".to_string())))
    );
    let also_failing = create_card(
        "猫",
        "s",
        "d",
        &failed,
        &vec![Err(FetchError::Decode("bad kanji".to_string()))],
    );
    assert_eq!(
        also_failing,
        Err(SynthesisError::Dictionary(FetchError::Network("connection refused".to_string())))
    );
}

#[test]
fn dictionary_decode_failure_keeps_its_kind() {
    let failed: Result<JishoAPIResponse, FetchError> =
        Err(FetchError::Decode("missing field `data`".to_string()));
    let made = create_card("猫", "s", "d", &failed, &vec![]);
    assert_eq!(
        made,
        Err(SynthesisError::Dictionary(FetchError::Decode("missing field `data`".to_string())))
    );
}

#[test]
fn no_entries_is_an_empty_result() {
    let made = create_card("猫", "s", "d", &found(vec![]), &vec![Ok(cat_kanji())]);
    assert_eq!(made, Err(SynthesisError::EmptyResult));
    let with_failures = create_card(
        "猫",
        "s",
        "d",
        &found(vec![]),
        &vec![Err(FetchError::Network("down".to_string()))],
    );
    assert_eq!(with_failures, Err(SynthesisError::EmptyResult));
}

#[test]
fn first_failed_kanji_wins() {
    let outcomes = vec![
        Ok(cat_kanji()),
        Err(FetchError::Network("first".to_string())),
        Ok(cat_kanji()),
        Err(FetchError::Decode("second".to_string())),
    ];
    let made = create_card("猫猫猫猫", "s", "d", &found(vec![cat_entry()]), &outcomes);
    assert_eq!(made, Err(SynthesisError::Character(FetchError::Network("first".to_string()))));
}

#[test]
fn later_outcomes_do_not_change_the_first_failure() {
    let ending_well = vec![Err(FetchError::Decode("broken".to_string())), Ok(cat_kanji())];
    let ending_badly = vec![
        Err(FetchError::Decode("broken".to_string())),
        Err(FetchError::Network("late".to_string())),
    ];
    let a = create_card("猫猫", "s", "d", &found(vec![cat_entry()]), &ending_well);
    let b = create_card("猫猫", "s", "d", &found(vec![cat_entry()]), &ending_badly);
    assert_eq!(a, Err(SynthesisError::Character(FetchError::Decode("broken".to_string()))));
    assert_eq!(a, b);
}

#[test]
fn only_the_first_entry_is_used() {
    let other = entry(vec![japanese(Some("犬"), Some("いぬ"))], vec![sense(&["Noun"], &["dog"], &[])]);
    let card = create_card("猫", "s", "d", &found(vec![cat_entry(), other]), &vec![]).unwrap();
    assert_eq!(card.back(), "猫【ねこ】 <br><br>Noun<br>• cat <br><br>");
}

#[test]
fn missing_word_form_or_reading_is_empty() {
    let e = entry(
        vec![japanese(None, Some("ねこ")), japanese(Some("猫"), None), japanese(None, None)],
        vec![],
    );
    let card = create_card("猫", "s", "d", &found(vec![e]), &vec![]).unwrap();
    assert_eq!(card.back(), "【ねこ】 猫【】 【】 <br><br><br><br>");
}

#[test]
fn parts_of_speech_are_written_once() {
    let e = entry(
        vec![],
        vec![
            sense(&["Noun", "Suru verb"], &["study", "learning"], &["formal"]),
            sense(&["Noun", "Suru verb"], &["diligence"], &[]),
            sense(&["Adjective"], &["studious"], &["rare", "dated"]),
        ],
    );
    let card = create_card("勉強", "s", "d", &found(vec![e]), &vec![]).unwrap();
    assert_eq!(
        card.back(),
        "<br><br>Noun, Suru verb<br>• study, learning formal• diligence Adjective<br>• studious rare, dated<br><br>"
    );
}

#[test]
fn parts_of_speech_found_by_chance_are_left_out() {
    // "Noun" already stands in the first definition, so the second sense gets no heading.
    let e = entry(
        vec![],
        vec![sense(&["Verb"], &["to use a Noun"], &[]), sense(&["Noun"], &["thing"], &[])],
    );
    let card = create_card("物", "s", "d", &found(vec![e]), &vec![]).unwrap();
    assert_eq!(card.back(), "<br><br>Verb<br>• to use a Noun • thing <br><br>");
}

#[test]
fn sense_without_parts_of_speech_gets_no_heading() {
    let e = entry(vec![], vec![sense(&[], &["cat"], &[])]);
    let card = create_card("猫", "s", "d", &found(vec![e]), &vec![]).unwrap();
    assert_eq!(card.back(), "<br><br>• cat <br><br>");
}

#[test]
fn repeated_kanji_is_written_twice() {
    let card = create_card(
        "猫猫",
        "s",
        "d",
        &found(vec![cat_entry()]),
        &vec![Ok(cat_kanji()), Ok(cat_kanji())],
    )
    .unwrap();
    let block = "猫<br>cat<br>Kun: ねこ<br>On: <br>Name: <br><br>";
    assert_eq!(
        card.back(),
        &format!("猫【ねこ】 <br><br>Noun<br>• cat <br><br>{}{}", block, block)
    );
}

#[test]
fn kanji_block_lists_every_kind_of_reading() {
    let k = kanji("日", &["day", "sun"], &["ひ", "か"], &["ニチ", "ジツ"], &["あ", "あき"]);
    let card = create_card("日", "s", "d", &found(vec![entry(vec![], vec![])]), &vec![Ok(k)]).unwrap();
    assert_eq!(
        card.back(),
        "<br><br><br><br>日<br>day, sun<br>Kun: ひ, か<br>On: ニチ, ジツ<br>Name: あ, あき<br><br>"
    );
}

#[test]
fn no_picture_leaves_the_note_as_it_is() {
    let card = cat_card().attach_picture("C:\\cards", None).unwrap();
    assert_eq!(card, cat_card());
    assert_eq!(card.picture(), &None);
}

#[test]
fn saved_picture_is_attached_to_the_front() {
    let card = cat_card().attach_picture("C:\\cards", Some(Ok(()))).unwrap();
    assert_eq!(
        card.picture(),
        &Some(AnkiPicture {
            path: "C:\\cards\\pic.jpg".to_string(),
            filename: "pic.jpg".to_string(),
            fields: vec!["Front".to_string()],
        })
    );
    assert_eq!(card.back(), cat_card().back());
    assert_eq!(card.front(), cat_card().front());
    assert_eq!(card.deck_name(), "Japanese");
}

#[test]
fn unsaved_picture_ends_the_request() {
    let made = cat_card().attach_picture("C:\\cards", Some(Err("disk full".to_string())));
    assert_eq!(made, Err(SynthesisError::Picture("disk full".to_string())));
}

#[test]
fn synthesis_messages() {
    assert_eq!(
        SynthesisError::Dictionary(FetchError::Network("timed out".to_string())).message(),
        "Error when calling jisho: timed out"
    );
    assert_eq!(
        SynthesisError::EmptyResult.message(),
        "No data found for the requested input. Try again with something else"
    );
    assert_eq!(
        SynthesisError::Character(FetchError::Decode("bad json".to_string())).message(),
        "Error when calling kanjiapi: bad json"
    );
    assert_eq!(
        SynthesisError::Picture("disk full".to_string()).message(),
        "Error happened when saving picture: disk full\n"
    );
}

#[test]
fn fetch_error_cause_and_copy() {
    let e = FetchError::Decode("bad json".to_string());
    assert_eq!(e.cause(), "bad json");
    assert_eq!(e.duplicate(), e);
    let n = FetchError::Network("down".to_string());
    assert_eq!(n.cause(), "down");
    assert_eq!(n.duplicate(), n);
}
