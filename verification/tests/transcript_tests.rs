use phantom::audio::Speaker;
use phantom::recording::{
    append_line, final_transcript, finish_session, language_detected, new_session, preview_due, preview_line, preview_taken,
    preview_wanted, should_detect_language, speaker_label, utterance_begins, utterance_transcribed,
};
use phantom::whisper::{get_available_models, long_enough, model_file_name, model_url, single_segment, transcript_from_segments, whisper_threads};

#[test]
fn lines_are_labelled_and_separated() {
    let mut t = String::new();
    append_line(&mut t, Speaker::User, "hello");
    assert_eq!(t, "[You] hello");
    append_line(&mut t, Speaker::Other, "hi there");
    assert_eq!(t, "[You] hello\n[Other] hi there");
}

#[test]
fn labels_and_previews() {
    assert_eq!(speaker_label(Speaker::User), "[You]");
    assert_eq!(speaker_label(Speaker::Other), "[Other]");
    assert_eq!(preview_line(Speaker::Other, "so"), "[Other] so");
}

#[test]
fn language_detected_only_for_auto_and_first_utterance() {
    assert!(should_detect_language("auto", ""));
    assert!(!should_detect_language("auto", "[You] hi"));
    assert!(!should_detect_language("en", ""));
}

#[test]
fn previews_every_three_seconds_of_speech() {
    assert!(preview_due(48000, 0));
    assert!(!preview_due(47999, 0));
    assert!(preview_due(100000, 52000));
    assert!(!preview_due(10, 52000));
}

#[test]
fn final_transcript_is_trimmed() {
    assert_eq!(final_transcript("  [You] hi\n"), "[You] hi");
    assert_eq!(final_transcript(""), "");
}

#[test]
fn segments_become_a_transcript() {
    let segs = vec![
        "  The meeting starts at noon tomorrow ".to_string(),
        "Thank you".to_string(),
        "".to_string(),
        "the meeting starts at noon tomorrow".to_string(),
        "Please bring the quarterly report".to_string(),
    ];
    assert_eq!(
        transcript_from_segments(&segs),
        Some("The meeting starts at noon tomorrow Please bring the quarterly report".to_string())
    );
}

#[test]
fn only_invented_segments_give_nothing() {
    let segs = vec!["Thank you".to_string(), "bye".to_string(), "   ".to_string()];
    assert_eq!(transcript_from_segments(&vec!["Thank you.".to_string()]), Some("Thank you.".to_string()));
    assert_eq!(transcript_from_segments(&segs), None);
    assert_eq!(transcript_from_segments(&vec![]), None);
}

#[test]
fn model_catalog_and_names() {
    let models = get_available_models(&vec![false, true]);
    assert_eq!(models.len(), 6);
    assert_eq!(models[0].size, "tiny");
    assert_eq!(models[0].label, "Tiny (~75MB)");
    assert_eq!(models[0].file_size_mb, 75);
    assert!(!models[0].downloaded);
    assert!(models[1].downloaded);
    assert!(!models[5].downloaded);
    assert_eq!(models[5].size, "large-v3");
    assert_eq!(models[5].file_size_mb, 3100);
    assert_eq!(model_file_name("small"), "ggml-small.bin");
    assert_eq!(
        model_url("base"),
        "https://huggingface.co/ggerganov/whisper.cpp/resolve/main/ggml-base.bin"
    );
}

#[test]
fn thread_count_and_lengths() {
    assert_eq!(whisper_threads(16), 8);
    assert_eq!(whisper_threads(4), 4);
    assert_eq!(whisper_threads(1), 4);
    assert!(long_enough(8000));
    assert!(!long_enough(7999));
    assert!(single_segment(127999));
    assert!(!single_segment(128000));
}

#[test]
fn a_session_detects_the_language_once_and_builds_the_transcript() {
    let mut s = new_session("auto".to_string());
    s.last_preview_samples = 50_000;
    assert!(utterance_begins(&mut s));
    assert_eq!(s.last_preview_samples, 0);
    language_detected(&mut s, Some("pt".to_string()));
    assert_eq!(s.language, "pt");
    assert!(utterance_transcribed(&mut s, Speaker::User, Some("olá".to_string())));
    assert!(!utterance_transcribed(&mut s, Speaker::Other, Some(String::new())));
    assert!(!utterance_transcribed(&mut s, Speaker::Other, None));
    assert!(!utterance_begins(&mut s));
    language_detected(&mut s, None);
    assert_eq!(s.language, "pt");
    assert!(utterance_transcribed(&mut s, Speaker::Other, Some("oi ".to_string())));
    assert_eq!(s.transcript, "[You] olá\n[Other] oi ");
    assert_eq!(finish_session(&s), "[You] olá\n[Other] oi");
}

#[test]
fn previews_come_every_three_seconds_of_speech() {
    let mut s = new_session("en".to_string());
    assert!(!utterance_begins(&mut s));
    assert!(!preview_wanted(&s, true, 47_999));
    assert!(preview_wanted(&s, true, 48_000));
    assert!(!preview_wanted(&s, false, 48_000));
    preview_taken(&mut s, 48_000);
    assert!(!preview_wanted(&s, true, 95_999));
    assert!(preview_wanted(&s, true, 96_000));
}
