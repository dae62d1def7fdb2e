use phantom::state::AppState;
use phantom::watcher::{
    flash_model, flash_prompt, next_backoff_interval, next_idle_interval, pro_model, pro_prompt,
    screen_unchanged, watcher_after_answer, watcher_after_failure, watcher_after_flash,
    watcher_observe, watcher_start, watcher_stop, word_overlap, FlashVerdict, ScreenReading,
    DEFAULT_INTERVAL_MS, MAX_INTERVAL_MS, MIN_INTERVAL_MS,
};

#[test]
fn word_overlap_counts_distinct_words() {
    let o = word_overlap("a b b c", "b c d");
    assert_eq!((o.shared, o.left, o.right), (2, 3, 3));
    let o = word_overlap("", "   ");
    assert_eq!((o.shared, o.left, o.right), (0, 0, 0));
}

#[test]
fn similarity_threshold_is_above_85_percent() {
    assert!(screen_unchanged("", ""));
    assert!(screen_unchanged("same words here", "here same words"));
    assert!(!screen_unchanged("", "new text"));
    // 17 shared out of 20 is exactly 85%: counts as a change
    let base: Vec<String> = (0..17).map(|i| format!("w{i}")).collect();
    let a = format!("{} x1 x2 x3", base.join(" "));
    let b = base.join(" ");
    assert!(!screen_unchanged(&a, &b));
    // 18 of 20 is 90%
    let base18: Vec<String> = (0..18).map(|i| format!("w{i}")).collect();
    let a = format!("{} x1 x2", base18.join(" "));
    assert!(screen_unchanged(&a, &base18.join(" ")));
}

#[test]
fn intervals_grow_and_stay_capped() {
    assert_eq!(next_idle_interval(3000), 4000);
    assert_eq!(next_idle_interval(9500), MAX_INTERVAL_MS);
    assert_eq!(next_idle_interval(MAX_INTERVAL_MS), MAX_INTERVAL_MS);
    assert_eq!(next_backoff_interval(3000), 5000);
    assert_eq!(next_backoff_interval(8500), MAX_INTERVAL_MS);
    assert_eq!(next_idle_interval(u64::MAX), MAX_INTERVAL_MS);
}

#[test]
fn starting_and_stopping() {
    let mut s = AppState::default();
    s.set_last_ocr_text("old".to_string());
    s.set_watcher_interval_ms(9000);
    assert!(watcher_start(&mut s));
    assert!(s.get_watcher_active());
    assert_eq!(s.get_watcher_interval_ms(), DEFAULT_INTERVAL_MS);
    assert_eq!(s.get_last_ocr_text(), "");
    s.set_watcher_interval_ms(5000);
    assert!(!watcher_start(&mut s));
    assert_eq!(s.get_watcher_interval_ms(), 5000);
    watcher_stop(&mut s);
    assert!(!s.get_watcher_active());
}

#[test]
fn new_screen_text_triggers_the_filter() {
    let mut s = AppState::default();
    assert!(watcher_start(&mut s));
    match watcher_observe(&mut s, "Question 1: what is 2+2?".to_string()) {
        ScreenReading::Changed { flash_prompt: p } => {
            assert!(p.ends_with("Raw OCR text:\nQuestion 1: what is 2+2?"));
            assert!(p.starts_with("You are a screen content extractor."));
        }
        ScreenReading::Unchanged => panic!("expected a change"),
    }
    assert_eq!(s.get_last_ocr_text(), "Question 1: what is 2+2?");
    assert_eq!(s.get_watcher_interval_ms(), MIN_INTERVAL_MS);
    match watcher_observe(&mut s, "Question 1: what is 2+2?".to_string()) {
        ScreenReading::Unchanged => {}
        _ => panic!("same text must be unchanged"),
    }
    assert_eq!(s.get_watcher_interval_ms(), MIN_INTERVAL_MS + 1000);
}

#[test]
fn blank_screen_counts_as_unchanged() {
    let mut s = AppState::default();
    assert!(watcher_start(&mut s));
    match watcher_observe(&mut s, "   \n ".to_string()) {
        ScreenReading::Unchanged => {}
        _ => panic!("blank text is no change"),
    }
    assert_eq!(s.get_watcher_interval_ms(), 4000);
    assert_eq!(s.get_last_ocr_text(), "");
}

#[test]
fn filter_verdicts() {
    let mut s = AppState::default();
    s.set_watcher_active(true);
    s.set_prompt("Answer it.".to_string());
    s.set_response_language("English".to_string());
    s.set_watcher_interval_ms(MIN_INTERVAL_MS);
    match watcher_after_flash(&mut s, "  NO_RELEVANT_CONTENT\n") {
        FlashVerdict::NothingRelevant => {}
        _ => panic!("marker expected"),
    }
    assert_eq!(s.get_watcher_interval_ms(), DEFAULT_INTERVAL_MS);
    s.set_watcher_interval_ms(MIN_INTERVAL_MS);
    match watcher_after_flash(&mut s, "Content: 2+2") {
        FlashVerdict::Ask { pro_prompt } => assert_eq!(
            pro_prompt,
            "Answer it.\n\nIMPORTANT: You MUST respond in English.\n\nScreen content:\nContent: 2+2"
        ),
        _ => panic!("content expected"),
    }
    assert_eq!(s.get_watcher_interval_ms(), MIN_INTERVAL_MS);
}

#[test]
fn failures_back_off_and_answers_reset() {
    let mut s = AppState::default();
    s.set_watcher_interval_ms(MIN_INTERVAL_MS);
    s.set_watcher_active(true);
    watcher_after_failure(&mut s);
    assert_eq!(s.get_watcher_interval_ms(), 4000);
    assert!(watcher_after_answer(&mut s, "4".to_string()));
    assert_eq!(s.get_last_response(), Some("4".to_string()));
    assert_eq!(s.get_watcher_interval_ms(), DEFAULT_INTERVAL_MS);
}

#[test]
fn replies_after_a_stop_are_dropped() {
    let mut s = AppState::default();
    assert!(watcher_start(&mut s));
    s.set_watcher_interval_ms(MIN_INTERVAL_MS);
    watcher_stop(&mut s);
    match watcher_after_flash(&mut s, "Content: 2+2") {
        FlashVerdict::Stopped => {}
        _ => panic!("a stopped watcher drops the reply"),
    }
    assert!(!watcher_after_answer(&mut s, "late".to_string()));
    assert_eq!(s.get_last_response(), None);
    assert_eq!(s.get_watcher_interval_ms(), MIN_INTERVAL_MS);
}

#[test]
fn models_and_prompts() {
    assert_eq!(flash_model(), "gemini-2.0-flash");
    assert_eq!(pro_model(), "gemini-2.5-pro");
    assert!(flash_prompt("x").ends_with("\nx"));
    assert_eq!(pro_prompt("P", "auto", "C"), "P\n\nScreen content:\nC");
}
