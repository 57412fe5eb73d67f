use imessage_bot::text::{
    all_alphanumeric_chars, contains_chars, contains_text, has_word_chars, join2, join3,
    matches_at, range_equals, slice_chars, starts_with_chars, text_eq, to_chars, trim_bounds,
    trim_text, CharClass,
};

fn chars(s: &str) -> Vec<char> {
    s.chars().collect()
}

#[test]
fn to_chars_keeps_every_character_in_order() {
    assert_eq!(to_chars("héllo ✅"), vec!['h', 'é', 'l', 'l', 'o', ' ', '✅']);
    assert_eq!(to_chars(""), Vec::<char>::new());
}

#[test]
fn matches_at_checks_one_position() {
    let text = chars("hello world");
    assert!(matches_at(&text, &chars("hello"), 0));
    assert!(matches_at(&text, &chars("world"), 6));
    assert!(!matches_at(&text, &chars("world"), 5));
    assert!(!matches_at(&text, &chars("world"), 7));
    assert!(!matches_at(&text, &chars("world"), 600));
    assert!(matches_at(&text, &chars(""), 11));
    assert!(!matches_at(&text, &chars(""), 12));
}

#[test]
fn contains_finds_substrings_anywhere() {
    assert!(contains_text("whatmyaidoing", "myai"));
    assert!(contains_text("myai", "myai"));
    assert!(contains_text("abc", ""));
    assert!(contains_text("", ""));
    assert!(!contains_text("", "a"));
    assert!(!contains_text("just chatting", "myai"));
    assert!(!contains_text("mya", "myai"));
    assert!(contains_chars(&chars("aab"), &chars("ab")));
}

#[test]
fn starts_with_looks_at_the_beginning_only() {
    assert!(starts_with_chars(&chars("@character x"), &chars("@character")));
    assert!(!starts_with_chars(&chars(" @character x"), &chars("@character")));
    assert!(starts_with_chars(&chars("abc"), &chars("")));
    assert!(!starts_with_chars(&chars("ab"), &chars("abc")));
}

#[test]
fn range_equals_compares_a_slice() {
    let text = chars("say myai now");
    assert!(range_equals(&text, 4, 8, &chars("myai")));
    assert!(!range_equals(&text, 4, 9, &chars("myai")));
    assert!(!range_equals(&text, 3, 7, &chars("myai")));
    assert!(range_equals(&text, 5, 5, &chars("")));
}

#[test]
fn trim_removes_whitespace_at_both_ends() {
    assert_eq!(trim_text("  a witty robot \n", CharClass::Whitespace), "a witty robot");
    assert_eq!(trim_text("\u{a0}x\u{3000}", CharClass::Whitespace), "x");
    assert_eq!(trim_text("   ", CharClass::Whitespace), "");
    assert_eq!(trim_text("", CharClass::Whitespace), "");
    assert_eq!(trim_text("a b", CharClass::Whitespace), "a b");
}

#[test]
fn trim_removes_punctuation_around_a_word() {
    assert_eq!(trim_text("\"myai!\"", CharClass::NotAlphanumeric), "myai");
    assert_eq!(trim_text("--", CharClass::NotAlphanumeric), "");
    assert_eq!(trim_text("bot-name", CharClass::NotAlphanumeric), "bot-name");
    assert_eq!(trim_text("(é9)", CharClass::NotAlphanumeric), "é9");
}

#[test]
fn trim_bounds_stay_inside_the_range() {
    let text = chars("xx  ab  yy");
    assert_eq!(trim_bounds(&text, 2, 8, CharClass::Whitespace), (4, 6));
    assert_eq!(trim_bounds(&text, 2, 4, CharClass::Whitespace), (4, 4));
    assert_eq!(trim_bounds(&text, 0, 10, CharClass::Whitespace), (0, 10));
}

#[test]
fn char_class_tells_whitespace_and_alphanumerics() {
    assert!(CharClass::Whitespace.test(' '));
    assert!(CharClass::Whitespace.test('\t'));
    assert!(!CharClass::Whitespace.test('a'));
    assert!(CharClass::NotAlphanumeric.test('-'));
    assert!(CharClass::NotAlphanumeric.test(' '));
    assert!(!CharClass::NotAlphanumeric.test('a'));
    assert!(!CharClass::NotAlphanumeric.test('7'));
}

#[test]
fn all_alphanumeric_rejects_any_other_character() {
    assert!(all_alphanumeric_chars(&chars("assistant123")));
    assert!(all_alphanumeric_chars(&chars("")));
    assert!(!all_alphanumeric_chars(&chars("bot-name")));
    assert!(!all_alphanumeric_chars(&chars("bot_name")));
    assert!(!all_alphanumeric_chars(&chars("bot name")));
}

#[test]
fn has_word_matches_whole_tokens_stripped_of_punctuation() {
    assert!(has_word_chars(&chars("hey myai can you help"), &chars("myai")));
    assert!(has_word_chars(&chars("hey, myai! can you help"), &chars("myai")));
    assert!(has_word_chars(&chars("myai"), &chars("myai")));
    assert!(has_word_chars(&chars("  (myai)  "), &chars("myai")));
    assert!(has_word_chars(&chars("a\tmyai\nb"), &chars("myai")));
    assert!(!has_word_chars(&chars("whatmyaidoing"), &chars("myai")));
    assert!(!has_word_chars(&chars("my ai"), &chars("myai")));
    assert!(!has_word_chars(&chars(""), &chars("myai")));
    assert!(!has_word_chars(&chars("   "), &chars("")));
    assert!(has_word_chars(&chars("a -- b"), &chars("")));
}

#[test]
fn text_eq_compares_characters() {
    assert!(text_eq("on", "on"));
    assert!(!text_eq("on", "On"));
    assert!(!text_eq("on", "one"));
    assert!(text_eq("", ""));
}

#[test]
fn join_concatenates_in_order() {
    assert_eq!(join2("ab", "cd"), "abcd");
    assert_eq!(join3("a", "", "c"), "ac");
}

#[test]
fn slice_chars_counts_characters_not_bytes() {
    assert_eq!(slice_chars("✅ done", 0, 1), "✅");
    assert_eq!(slice_chars("✅ done", 2, 6), "done");
    assert_eq!(slice_chars("abc", 1, 1), "");
}
