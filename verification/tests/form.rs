use anki_card_creator::form::{deck_is_known, WordCleaner};

#[test]
fn cleaner_keeps_japanese_script() {
    let cleaner = WordCleaner::new().unwrap();
    assert_eq!(cleaner.clean("食べ物"), "食べ物");
    assert_eq!(cleaner.clean(" 食べ物\n"), "食べ物");
    assert_eq!(cleaner.clean("neko ねこ ネコ 猫!"), "ねこネコ猫");
    assert_eq!(cleaner.clean("abc"), "");
    assert_eq!(cleaner.clean(""), "");
    assert_eq!(cleaner.clean("時々"), "時々");
}

#[test]
fn deck_must_be_one_of_the_known() {
    let decks = vec!["Default".to_string(), "Japanese".to_string()];
    assert!(deck_is_known(&decks, &"Japanese".to_string()));
    assert!(deck_is_known(&decks, &"Default".to_string()));
    assert!(!deck_is_known(&decks, &"Select deck".to_string()));
    assert!(!deck_is_known(&decks, &"japanese".to_string()));
    assert!(!deck_is_known(&vec![], &"Japanese".to_string()));
}
