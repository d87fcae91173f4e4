use anki_card_creator::text::{chars_of, contains, join};

fn strings(items: &[&str]) -> Vec<String> {
    items.iter().map(|s| s.to_string()).collect()
}

#[test]
fn join_puts_the_separator_between() {
    assert_eq!(join(&strings(&[]), ", "), "");
    assert_eq!(join(&strings(&["a"]), ", "), "a");
    assert_eq!(join(&strings(&["a", "b", "c"]), ", "), "a, b, c");
    assert_eq!(join(&strings(&["", ""]), "-"), "-");
    assert_eq!(join(&strings(&["ねこ", "ビョウ"]), ", "), "ねこ, ビョウ");
    assert_eq!(join(&strings(&["a", "b"]), ""), "ab");
}

#[test]
fn join_agrees_with_std() {
    for parts in [strings(&[]), strings(&["x"]), strings(&["x", "", "y"]), strings(&["", "", ""])] {
        assert_eq!(join(&parts, ", "), parts.join(", "));
    }
}

#[test]
fn contains_finds_runs_of_characters() {
    assert!(contains("Noun<br>• cat", "Noun"));
    assert!(contains("Noun<br>• cat", "cat"));
    assert!(contains("Noun<br>• cat", "<br>•"));
    assert!(!contains("Noun<br>• cat", "noun"));
    assert!(!contains("Noun<br>• cat", "cats"));
    assert!(!contains("ab", "abc"));
    assert!(contains("猫【ねこ】", "【ねこ"));
    assert!(!contains("猫【ねこ】", "こね"));
    assert!(contains("aab", "ab"));
}

#[test]
fn contains_with_empty_texts() {
    assert!(contains("abc", ""));
    assert!(contains("", ""));
    assert!(!contains("", "a"));
}

#[test]
fn contains_agrees_with_std() {
    let hays = ["", "a", "abcabd", "Noun, Verb<br>", "日曜日"];
    let needles = ["", "a", "abd", "Verb", "曜日", "日日", "bc"];
    for hay in hays {
        for needle in needles {
            assert_eq!(contains(hay, needle), hay.contains(needle));
        }
    }
}

#[test]
fn chars_of_gives_every_character() {
    assert_eq!(chars_of("a猫b"), vec!['a', '猫', 'b']);
    assert_eq!(chars_of(""), Vec::<char>::new());
}
