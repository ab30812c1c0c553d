use taurscribe::transcript::{capitalize_first, clean_transcript, is_whitespace, tidy_spacing};

#[test]
fn cleans_spacing_and_capitalises() {
    assert_eq!(
        clean_transcript("  hello ,  world .  is this 100 % ?  "),
        "Hello, world. is this 100%?"
    );
    assert_eq!(clean_transcript("wow !"), "Wow!");
    assert_eq!(clean_transcript(""), "");
    assert_eq!(clean_transcript("   "), "");
    assert_eq!(clean_transcript("Already fine."), "Already fine.");
}

#[test]
fn space_run_before_punctuation_keeps_one_space() {
    // only the space right before the comma goes
    assert_eq!(clean_transcript("  a  , b"), "A , b");
}

#[test]
fn capitalises_non_ascii_first_letter() {
    assert_eq!(clean_transcript("élan"), "Élan");
    assert_eq!(clean_transcript("ß x"), "SS x");
    assert_eq!(clean_transcript("1st"), "1st");
}

#[test]
fn tidy_spacing_keeps_case() {
    assert_eq!(tidy_spacing("\t a   b ,c\n"), "a b,c");
}

#[test]
fn capitalize_first_uses_given_letter() {
    assert_eq!(capitalize_first("abc", true, "XY"), "XYbc");
    assert_eq!(capitalize_first("abc", false, "XY"), "abc");
    assert_eq!(capitalize_first("", true, "XY"), "");
}

#[test]
fn whitespace_matches_std() {
    for c in [' ', '\t', '\n', '\u{a0}', '\u{3000}', '\u{2009}', 'a', '_', '\u{200b}'] {
        assert_eq!(is_whitespace(c), c.is_whitespace());
    }
}

use taurscribe::transcript::text_to_insert;

#[test]
fn text_to_insert_skips_blank_and_silence() {
    assert_eq!(text_to_insert("  hello  "), Some("hello".to_string()));
    assert_eq!(text_to_insert("   "), None);
    assert_eq!(text_to_insert(" [silence] "), None);
    assert_eq!(text_to_insert("[silence]!"), Some("[silence]!".to_string()));
}
