use phantom::hallucination::{floor_char_boundary, is_duplicate_segment, is_hallucination};

#[test]
fn empty_and_tiny_texts_are_invented() {
    assert!(is_hallucination(""));
    assert!(is_hallucination("   "));
    assert!(is_hallucination("a"));
}

#[test]
fn punctuation_only_is_invented() {
    assert!(is_hallucination("..."));
    assert!(is_hallucination(" ?! "));
}

#[test]
fn exact_phrases_in_any_case_are_invented() {
    assert!(is_hallucination("Thank you"));
    assert!(is_hallucination("  BYE  "));
    assert!(is_hallucination("Legendas pela comunidade"));
    assert!(is_hallucination("então"));
}

#[test]
fn marker_fragments_are_invented() {
    assert!(is_hallucination("Subtitles by the Amara.org community"));
    assert!(is_hallucination("please visit www.example.com for more"));
    assert!(is_hallucination("Don't forget to hit the bell icon"));
}

#[test]
fn short_questions_are_invented() {
    assert!(is_hallucination("What is this"));
    assert!(is_hallucination("did you know"));
}

#[test]
fn two_short_words_are_invented() {
    assert!(is_hallucination("ok go"));
    assert!(!is_hallucination("hello there"));
}

#[test]
fn repeated_word_is_invented() {
    assert!(is_hallucination("you you you you"));
    assert!(is_hallucination("yes yes no"));
}

#[test]
fn repeated_word_group_is_invented() {
    assert!(is_hallucination("I think that I think that we should go"));
}

#[test]
fn mostly_foreign_script_is_invented() {
    assert!(is_hallucination("привет как дела сегодня"));
}

#[test]
fn ordinary_speech_is_kept() {
    assert!(!is_hallucination("the quick brown fox jumps over the lazy dog"));
    assert!(!is_hallucination("The meeting starts at noon tomorrow"));
    assert!(!is_hallucination("Can you explain the second question again"));
}

#[test]
fn duplicate_when_equal_ignoring_case() {
    let previous = vec!["hello world".to_string()];
    assert!(is_duplicate_segment("HELLO WORLD", &previous));
}

#[test]
fn duplicate_when_leading_two_thirds_recur() {
    let previous = vec!["the quick brown fox jumps".to_string()];
    assert!(is_duplicate_segment("so the quick brown fox", &previous));
}

#[test]
fn duplicate_when_new_segment_starts_an_old_one() {
    let previous = vec!["we will meet at the station".to_string()];
    assert!(is_duplicate_segment("we will meet at the", &previous));
}

#[test]
fn not_duplicate_when_unrelated() {
    let previous = vec!["the quick brown fox jumps".to_string(), "over the lazy dog".to_string()];
    assert!(!is_duplicate_segment("a completely different sentence", &previous));
    assert!(!is_duplicate_segment("anything", &[]));
}

#[test]
fn short_segments_only_match_exactly() {
    let previous = vec!["short one".to_string()];
    assert!(!is_duplicate_segment("short", &previous));
}

#[test]
fn floor_boundary_cases() {
    assert_eq!(floor_char_boundary("héllo", 2), Some("h"));
    assert_eq!(floor_char_boundary("héllo", 3), Some("hé"));
    assert_eq!(floor_char_boundary("héllo", 10), Some("héllo"));
    assert_eq!(floor_char_boundary("héllo", 6), Some("héllo"));
    assert_eq!(floor_char_boundary("héllo", 0), None);
    assert_eq!(floor_char_boundary("", 0), Some(""));
    assert_eq!(floor_char_boundary("éa", 1), None);
}

#[test]
fn duplicate_detection_ignores_order() {
    let a = "the quick brown fox jumps";
    let b = "so the quick brown fox";
    assert_eq!(
        is_duplicate_segment(a, &[b.to_string()]),
        is_duplicate_segment(b, &[a.to_string()])
    );
    assert!(is_duplicate_segment("Anything at all", &["other".to_string(), "Anything at all".to_string()]));
}

#[test]
fn verdict_ignores_padding_and_ascii_case() {
    for text in ["thank you", "the quick brown fox jumps over the lazy dog", "you you you you", "ok", "Hello there friend"] {
        assert_eq!(is_hallucination(text), is_hallucination(&format!(" \t{}\n ", text)));
        assert_eq!(is_hallucination(text), is_hallucination(&text.to_ascii_uppercase()));
    }
    assert!(is_hallucination("  THANK YOU\n"));
    assert!(!is_hallucination("\tTHE MEETING STARTS AT NOON TOMORROW "));
}
