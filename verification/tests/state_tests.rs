use phantom::audio::AudioSource;
use phantom::commands::{complete_onboarding, get_config, load_config_from_store, save_config, transcription_request, StoredConfig};
use phantom::recording;
use phantom::state::AppState;

#[test]
fn defaults_match_a_fresh_install() {
    let s = AppState::default();
    assert_eq!(s.get_api_key(), "");
    assert_eq!(s.get_model(), "gemini-2.5-flash");
    assert_eq!(
        s.get_prompt(),
        "Analyze this screenshot and answer any questions visible on screen. Be concise and direct."
    );
    assert_eq!(s.get_last_response(), None);
    assert!(!s.get_processing());
    assert!(s.get_stealth_mode());
    assert!(!s.get_recording());
    assert_eq!(s.get_whisper_model_size(), "small");
    assert_eq!(s.get_whisper_language(), "auto");
    assert_eq!(s.get_audio_source(), "both");
    assert_eq!(s.get_response_language(), "auto");
    assert!(!s.get_has_onboarded());
    assert!(!s.get_dodge_on_hover());
    assert_eq!(s.get_window_level(), 25);
    assert!(s.get_network_jitter());
    assert!(s.get_spoof_user_agent());
    assert_eq!(s.get_usage_db_path(), None);
    assert!(!s.get_watcher_active());
    assert_eq!(s.get_watcher_interval_ms(), 3000);
    assert_eq!(s.get_last_ocr_text(), "");
    assert!(s.get_detected_proctors().is_empty());
}

#[test]
fn read_after_write_gives_the_value_written() {
    let mut s = AppState::default();
    s.set_api_key("key-1".to_string());
    s.set_window_level(1000);
    s.set_last_response(Some("answer".to_string()));
    s.set_usage_db_path(Some("/tmp/usage.db".to_string()));
    s.set_watcher_interval_ms(7000);
    assert_eq!(s.get_api_key(), "key-1");
    assert_eq!(s.get_window_level(), 1000);
    assert_eq!(s.get_last_response(), Some("answer".to_string()));
    assert_eq!(s.get_usage_db_path(), Some("/tmp/usage.db".to_string()));
    assert_eq!(s.get_watcher_interval_ms(), 7000);
}

#[test]
fn a_write_leaves_other_fields_alone() {
    let mut s = AppState::default();
    s.set_model("gemini-2.5-pro".to_string());
    assert_eq!(s.get_api_key(), "");
    assert_eq!(s.get_prompt(), AppState::default().get_prompt());
    assert!(s.get_stealth_mode());
}

#[test]
fn a_second_write_replaces_the_first() {
    let mut s = AppState::default();
    s.set_proxy_url("http://a".to_string());
    s.set_proxy_url("http://b".to_string());
    assert_eq!(s.get_proxy_url(), "http://b");
}

#[test]
fn saved_settings_are_read_back() {
    let mut s = AppState::default();
    save_config(
        &mut s,
        "k".to_string(),
        "m".to_string(),
        "p".to_string(),
        false,
        "tiny".to_string(),
        "pt".to_string(),
        "mic".to_string(),
        "seed".to_string(),
        "Portuguese".to_string(),
        true,
    );
    let c = get_config(&s);
    assert_eq!(c.api_key, "k");
    assert_eq!(c.model, "m");
    assert_eq!(c.prompt, "p");
    assert!(!c.stealth_mode);
    assert_eq!(c.whisper_model_size, "tiny");
    assert_eq!(c.whisper_language, "pt");
    assert_eq!(c.audio_source, "mic");
    assert_eq!(c.vocab_seed, "seed");
    assert_eq!(c.response_language, "Portuguese");
    assert!(c.dodge_on_hover);
    assert!(!s.get_recording());
    assert_eq!(s.get_window_level(), 25);
}

fn empty_store() -> StoredConfig {
    StoredConfig {
        api_key: None,
        model: None,
        prompt: None,
        stealth_mode: None,
        whisper_model_size: None,
        whisper_language: None,
        audio_source: None,
        vocab_seed: None,
        response_language: None,
        has_onboarded: None,
        dodge_on_hover: None,
        process_disguise_name: None,
        passthrough_mode: None,
        network_jitter: None,
        proxy_url: None,
        spoof_user_agent: None,
    }
}

#[test]
fn stored_settings_replace_only_what_is_stored() {
    let mut s = AppState::default();
    let mut stored = empty_store();
    stored.api_key = Some("stored-key".to_string());
    stored.network_jitter = Some(false);
    stored.whisper_language = Some("en".to_string());
    load_config_from_store(&mut s, stored);
    assert_eq!(s.get_api_key(), "stored-key");
    assert!(!s.get_network_jitter());
    assert_eq!(s.get_whisper_language(), "en");
    assert_eq!(s.get_model(), "gemini-2.5-flash");
    assert!(s.get_spoof_user_agent());
}

#[test]
fn an_empty_store_changes_nothing() {
    let mut s = AppState::default();
    load_config_from_store(&mut s, empty_store());
    assert_eq!(s.get_model(), "gemini-2.5-flash");
    assert!(s.get_stealth_mode());
}

#[test]
fn onboarding_sets_key_and_flag() {
    let mut s = AppState::default();
    complete_onboarding(&mut s, "abc".to_string());
    assert_eq!(s.get_api_key(), "abc");
    assert!(s.get_has_onboarded());
}

#[test]
fn transcription_needs_a_key() {
    let s = AppState::default();
    match transcription_request(&s) {
        Err(e) => assert_eq!(e, "API key not configured"),
        Ok(_) => panic!("expected an error"),
    }
    let mut s = AppState::default();
    s.set_api_key("k".to_string());
    let q = transcription_request(&s).ok().unwrap();
    assert_eq!(q.api_key, "k");
    assert_eq!(q.model, "gemini-2.5-flash");
    assert_eq!(q.response_language, "auto");
}

#[test]
fn recording_starts_with_the_settings_and_an_empty_transcript() {
    let mut s = AppState::default();
    s.set_audio_source("mic".to_string());
    s.set_transcription_text("old".to_string());
    let settings = recording::start(&mut s).ok().unwrap();
    assert_eq!(settings.model_size, "small");
    assert_eq!(settings.language, "auto");
    assert_eq!(settings.source, AudioSource::Mic);
    assert!(s.get_recording());
    assert_eq!(s.get_transcription_text(), "");
}

#[test]
fn starting_twice_fails() {
    let mut s = AppState::default();
    assert!(recording::start(&mut s).is_ok());
    match recording::start(&mut s) {
        Err(e) => assert_eq!(e, "Already recording"),
        Ok(_) => panic!("expected an error"),
    }
    assert!(s.get_recording());
}

#[test]
fn stopping_hands_back_the_transcript() {
    let mut s = AppState::default();
    assert!(recording::start(&mut s).is_ok());
    s.set_transcription_text("[You] hi".to_string());
    assert_eq!(recording::stop(&mut s), Ok("[You] hi".to_string()));
    assert!(!s.get_recording());
    assert_eq!(recording::stop(&mut s), Err("Not recording".to_string()));
}

#[test]
fn start_then_stop_gives_an_empty_transcript() {
    let mut s = AppState::default();
    s.set_transcription_text("previous".to_string());
    assert!(recording::start(&mut s).is_ok());
    assert_eq!(recording::stop(&mut s), Ok(String::new()));
}

#[test]
fn abandoned_recording_is_not_running() {
    let mut s = AppState::default();
    assert!(recording::start(&mut s).is_ok());
    recording::abandon(&mut s);
    assert!(!s.get_recording());
}

#[test]
fn audio_source_names() {
    assert_eq!(AudioSource::from_str("mic"), AudioSource::Mic);
    assert_eq!(AudioSource::from_str("system"), AudioSource::System);
    assert_eq!(AudioSource::from_str("both"), AudioSource::Both);
    assert_eq!(AudioSource::from_str("MIC"), AudioSource::Both);
    assert_eq!(AudioSource::from_str(""), AudioSource::Both);
    assert!(AudioSource::Mic.captures_mic());
    assert!(!AudioSource::Mic.captures_system());
    assert!(AudioSource::Both.captures_mic() && AudioSource::Both.captures_system());
    assert!(!AudioSource::System.captures_mic());
}

#[test]
fn onboarding_leads_to_the_main_panel_after_a_restart() {
    let mut before = AppState::default();
    complete_onboarding(&mut before, "k-123".to_string());
    let mut stored = empty_store();
    stored.api_key = Some(before.get_api_key());
    stored.has_onboarded = Some(before.get_has_onboarded());
    stored.model = Some("gemini-2.5-pro".to_string());
    let mut after = AppState::default();
    load_config_from_store(&mut after, stored);
    assert_eq!(after.get_api_key(), "k-123");
    assert!(after.get_has_onboarded());
    assert_eq!(phantom::panels::startup_panel(&after), "main");
}
