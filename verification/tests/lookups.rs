use anki_card_creator::ankiconnect::{kanji_requests, plan_lookups};
use anki_card_creator::charclass::CharClass;
use anki_card_creator::data_sources::jisho::search_url;
use anki_card_creator::data_sources::kanjiapi::{KanjiAPIClient, HAN_CLASS, ITERATION_MARK};

fn client() -> KanjiAPIClient {
    KanjiAPIClient::new().unwrap()
}

#[test]
fn kanji_stay_and_the_rest_goes() {
    let c = client();
    assert_eq!(c.remove_all_but_kanji("食べ物"), "食物");
    assert_eq!(c.remove_all_but_kanji("猫"), "猫");
    assert_eq!(c.remove_all_but_kanji("ねこ"), "");
    assert_eq!(c.remove_all_but_kanji("カタカナ"), "");
    assert_eq!(c.remove_all_but_kanji("abc 123!"), "");
    assert_eq!(c.remove_all_but_kanji(""), "");
    assert_eq!(c.remove_all_but_kanji("a漢b字c"), "漢字");
}

#[test]
fn iteration_mark_goes() {
    let c = client();
    assert_eq!(c.remove_all_but_kanji("時々"), "時");
    assert_eq!(c.remove_all_but_kanji("人々の日々"), "人日");
    assert_eq!(c.remove_all_but_kanji("々"), "");
    assert!(!c.keeps(ITERATION_MARK));
    assert_eq!(ITERATION_MARK, '々');
}

#[test]
fn repeated_kanji_stay_repeated() {
    let c = client();
    assert_eq!(c.remove_all_but_kanji("猫と猫"), "猫猫");
    assert_eq!(c.remove_all_but_kanji("日曜日"), "日曜日");
}

#[test]
fn keeps_tells_kanji_from_the_rest() {
    let c = client();
    assert!(c.keeps('猫'));
    assert!(c.keeps('日'));
    assert!(!c.keeps('ね'));
    assert!(!c.keeps('ネ'));
    assert!(!c.keeps('a'));
    assert!(!c.keeps(' '));
}

#[test]
fn han_class_is_a_class_of_the_regex_crate() {
    let han = CharClass::compile(HAN_CLASS).unwrap();
    assert!(han.contains('猫'));
    assert!(han.contains('々'));
    assert!(!han.contains('x'));
    assert_eq!(han.retain("x猫々y"), "猫々");
    assert!(CharClass::compile("[unclosed").is_none());
    let digits = CharClass::compile("[0-9]").unwrap();
    assert!(digits.contains('7'));
    assert!(!digits.contains('猫'));
    assert_eq!(digits.retain("a1b22c"), "122");
}

#[test]
fn addresses() {
    assert_eq!(search_url("猫"), "https://jisho.org/api/v1/search/words?keyword=猫");
    assert_eq!(search_url(""), "https://jisho.org/api/v1/search/words?keyword=");
    assert_eq!(client().kanji_url('猫'), "https://kanjiapi.dev/v1/kanji/猫");
}

#[test]
fn one_request_for_each_character() {
    let c = client();
    assert_eq!(
        kanji_requests(&c, "日本".to_string()),
        vec![
            "https://kanjiapi.dev/v1/kanji/日".to_string(),
            "https://kanjiapi.dev/v1/kanji/本".to_string(),
        ]
    );
    assert_eq!(kanji_requests(&c, String::new()), Vec::<String>::new());
}

#[test]
fn plan_has_one_lookup_more_than_the_word_has_kanji() {
    let c = client();
    for word in ["猫", "食べ物", "ねこ", "", "時々", "日曜日", "abc"] {
        let n = c.remove_all_but_kanji(word).chars().count();
        let plan = plan_lookups(&c, word);
        assert_eq!(1 + plan.kanji.len(), 1 + n);
        assert_eq!(plan.dictionary, search_url(word));
    }
}

#[test]
fn plan_asks_the_dictionary_for_the_word_as_given() {
    let plan = plan_lookups(&client(), "食べ物");
    assert_eq!(plan.dictionary, "https://jisho.org/api/v1/search/words?keyword=食べ物");
    assert_eq!(
        plan.kanji,
        vec![
            "https://kanjiapi.dev/v1/kanji/食".to_string(),
            "https://kanjiapi.dev/v1/kanji/物".to_string(),
        ]
    );
}

#[test]
fn repeated_kanji_is_asked_for_twice() {
    let plan = plan_lookups(&client(), "猫猫");
    assert_eq!(plan.kanji.len(), 2);
    assert_eq!(plan.kanji[0], plan.kanji[1]);
    assert_eq!(plan.kanji[0], "https://kanjiapi.dev/v1/kanji/猫");
}
