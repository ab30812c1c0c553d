use taurscribe::spellcheck::{
    apply_suggestion, lookup_key, match_case, split_words, strip_punctuation, SpellChecker,
};

#[test]
fn punctuation_is_split_off() {
    assert_eq!(
        strip_punctuation("\"Hello!\""),
        ("\"".to_string(), "Hello".to_string(), "!\"".to_string())
    );
    assert_eq!(
        strip_punctuation("..."),
        ("...".to_string(), String::new(), String::new())
    );
    assert_eq!(
        strip_punctuation("don't"),
        (String::new(), "don't".to_string(), String::new())
    );
}

#[test]
fn case_follows_original() {
    assert_eq!(match_case("world", "HELLO"), "WORLD");
    assert_eq!(match_case("world", "Hello"), "World");
    assert_eq!(match_case("World", "hello"), "world");
    assert_eq!(match_case("x", ""), "X");
}

#[test]
fn words_split_on_white_space() {
    assert_eq!(split_words("  a\tbc  d\n"), vec!["a", "bc", "d"]);
    assert!(split_words("   ").is_empty());
}

#[test]
fn lookup_keys() {
    assert_eq!(lookup_key("a"), None);
    assert_eq!(lookup_key("1,000"), None);
    assert_eq!(lookup_key("..."), None);
    assert_eq!(lookup_key("Helo,"), Some("helo".to_string()));
    assert_eq!(lookup_key("é"), Some("é".to_string()));
}

#[test]
fn suggestions_applied() {
    assert_eq!(apply_suggestion("Helo,", Some("hello".to_string())), "Hello,");
    assert_eq!(apply_suggestion("Hello,", Some("hello".to_string())), "Hello,");
    assert_eq!(apply_suggestion("(HELO)", Some("hello".to_string())), "(HELLO)");
    assert_eq!(apply_suggestion("helo", None), "helo");
    assert_eq!(apply_suggestion("a", Some("b".to_string())), "a");
}

#[test]
fn corrects_against_dictionary() {
    let mut s = SpellChecker::new();
    s.load_line("hello 100");
    s.load_line("world 50");
    assert_eq!(s.correct("helo  Wrld !"), "hello World !");
    assert_eq!(s.correct(""), "");
}
