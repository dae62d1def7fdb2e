//! What the settings panel reads and writes, and how stored settings are
//! taken back at start-up.
use vstd::prelude::*;
use crate::state::{AppState, StateField, StateValue, StateView};

verus! {

/// The settings the configuration panel shows and edits.
pub struct Config {
    pub api_key: String,
    pub model: String,
    pub prompt: String,
    pub stealth_mode: bool,
    pub whisper_model_size: String,
    pub whisper_language: String,
    pub audio_source: String,
    pub vocab_seed: String,
    pub response_language: String,
    pub dodge_on_hover: bool,
}

pub struct ConfigView {
    pub api_key: Seq<char>,
    pub model: Seq<char>,
    pub prompt: Seq<char>,
    pub stealth_mode: bool,
    pub whisper_model_size: Seq<char>,
    pub whisper_language: Seq<char>,
    pub audio_source: Seq<char>,
    pub vocab_seed: Seq<char>,
    pub response_language: Seq<char>,
    pub dodge_on_hover: bool,
}

impl View for Config {
    type V = ConfigView;

    open spec fn view(&self) -> ConfigView {
        ConfigView {
            api_key: self.api_key@,
            model: self.model@,
            prompt: self.prompt@,
            stealth_mode: self.stealth_mode,
            whisper_model_size: self.whisper_model_size@,
            whisper_language: self.whisper_language@,
            audio_source: self.audio_source@,
            vocab_seed: self.vocab_seed@,
            response_language: self.response_language@,
            dodge_on_hover: self.dodge_on_hover,
        }
    }
}

/// The settings as the state holds them.
pub open spec fn config_of(s: StateView) -> ConfigView {
    ConfigView {
        api_key: s.api_key,
        model: s.model,
        prompt: s.prompt,
        stealth_mode: s.stealth_mode,
        whisper_model_size: s.whisper_model_size,
        whisper_language: s.whisper_language,
        audio_source: s.audio_source,
        vocab_seed: s.vocab_seed,
        response_language: s.response_language,
        dodge_on_hover: s.dodge_on_hover,
    }
}

/// The state with the settings replaced by `c`, all else as it was.
pub open spec fn with_config(s: StateView, c: ConfigView) -> StateView {
    StateView {
        api_key: c.api_key,
        model: c.model,
        prompt: c.prompt,
        stealth_mode: c.stealth_mode,
        whisper_model_size: c.whisper_model_size,
        whisper_language: c.whisper_language,
        audio_source: c.audio_source,
        vocab_seed: c.vocab_seed,
        response_language: c.response_language,
        dodge_on_hover: c.dodge_on_hover,
        ..s
    }
}

pub fn get_config(state: &AppState) -> (r: Config)
    ensures
        r@ == config_of(state@),
        r.api_key@ == state@.api_key,
        r.model@ == state@.model,
        r.prompt@ == state@.prompt,
        r.stealth_mode == state@.stealth_mode,
        r.whisper_model_size@ == state@.whisper_model_size,
        r.whisper_language@ == state@.whisper_language,
        r.audio_source@ == state@.audio_source,
        r.vocab_seed@ == state@.vocab_seed,
        r.response_language@ == state@.response_language,
        r.dodge_on_hover == state@.dodge_on_hover,
{
    Config {
        api_key: state.get_api_key(),
        model: state.get_model(),
        prompt: state.get_prompt(),
        stealth_mode: state.get_stealth_mode(),
        whisper_model_size: state.get_whisper_model_size(),
        whisper_language: state.get_whisper_language(),
        audio_source: state.get_audio_source(),
        vocab_seed: state.get_vocab_seed(),
        response_language: state.get_response_language(),
        dodge_on_hover: state.get_dodge_on_hover(),
    }
}

pub fn save_config(
    state: &mut AppState,
    api_key: String,
    model: String,
    prompt: String,
    stealth_mode: bool,
    whisper_model_size: String,
    whisper_language: String,
    audio_source: String,
    vocab_seed: String,
    response_language: String,
    dodge_on_hover: bool,
)
    ensures
        final(state)@ == with_config(
            old(state)@,
            ConfigView {
                api_key: api_key@,
                model: model@,
                prompt: prompt@,
                stealth_mode,
                whisper_model_size: whisper_model_size@,
                whisper_language: whisper_language@,
                audio_source: audio_source@,
                vocab_seed: vocab_seed@,
                response_language: response_language@,
                dodge_on_hover,
            },
        ),
        final(state)@.api_key == api_key@,
        final(state)@.model == model@,
        final(state)@.prompt == prompt@,
        final(state)@.stealth_mode == stealth_mode,
        final(state)@.whisper_model_size == whisper_model_size@,
        final(state)@.whisper_language == whisper_language@,
        final(state)@.audio_source == audio_source@,
        final(state)@.vocab_seed == vocab_seed@,
        final(state)@.response_language == response_language@,
        final(state)@.dodge_on_hover == dodge_on_hover,
{
    state.set_api_key(api_key);
    state.set_model(model);
    state.set_prompt(prompt);
    state.set_stealth_mode(stealth_mode);
    state.set_whisper_model_size(whisper_model_size);
    state.set_whisper_language(whisper_language);
    state.set_audio_source(audio_source);
    state.set_vocab_seed(vocab_seed);
    state.set_response_language(response_language);
    state.set_dodge_on_hover(dodge_on_hover);
}

/// Each setting saved lands in the state field of that same setting, and
/// each setting shown is read from the state field of that same setting.
pub proof fn lemma_config_fields_match(s: StateView, c: ConfigView)
    ensures
        with_config(s, c).api_key == c.api_key,
        with_config(s, c).model == c.model,
        with_config(s, c).prompt == c.prompt,
        with_config(s, c).stealth_mode == c.stealth_mode,
        with_config(s, c).whisper_model_size == c.whisper_model_size,
        with_config(s, c).whisper_language == c.whisper_language,
        with_config(s, c).audio_source == c.audio_source,
        with_config(s, c).vocab_seed == c.vocab_seed,
        with_config(s, c).response_language == c.response_language,
        with_config(s, c).dodge_on_hover == c.dodge_on_hover,
        config_of(s).api_key == s.api_key,
        config_of(s).model == s.model,
        config_of(s).prompt == s.prompt,
        config_of(s).stealth_mode == s.stealth_mode,
        config_of(s).whisper_model_size == s.whisper_model_size,
        config_of(s).whisper_language == s.whisper_language,
        config_of(s).audio_source == s.audio_source,
        config_of(s).vocab_seed == s.vocab_seed,
        config_of(s).response_language == s.response_language,
        config_of(s).dodge_on_hover == s.dodge_on_hover,
{
}

/// Settings read back after saving are the settings saved.
pub proof fn lemma_saved_config_read_back(s: StateView, c: ConfigView)
    ensures
        config_of(with_config(s, c)) == c,
{
}

/// Saving settings touches nothing but the settings.
pub proof fn lemma_save_keeps_session(s: StateView, c: ConfigView, f: StateField)
    requires
        !(f is ApiKey || f is Model || f is Prompt || f is StealthMode || f is WhisperModelSize
            || f is WhisperLanguage || f is AudioSource || f is VocabSeed || f is ResponseLanguage
            || f is DodgeOnHover),
    ensures
        with_config(s, c).field(f) == s.field(f),
{
}

/// Saving the settings that are already there changes nothing.
pub proof fn lemma_save_current_config(s: StateView)
    ensures
        with_config(s, config_of(s)) == s,
{
}

/// Onboarding stores the key and marks the welcome flow done.
pub fn complete_onboarding(state: &mut AppState, api_key: String)
    ensures
        final(state)@ == old(state)@.with_field(StateField::ApiKey, StateValue::Text(api_key@)).with_field(
            StateField::HasOnboarded,
            StateValue::Flag(true),
        ),
{
    state.set_api_key(api_key);
    state.set_has_onboarded(true);
}

// ---------------------------------------------------------------------------
// Stored settings
// ---------------------------------------------------------------------------

/// The settings found in the store at start-up; `None` where a key is
/// missing or holds a value of the wrong type.
pub struct StoredConfig {
    pub api_key: Option<String>,
    pub model: Option<String>,
    pub prompt: Option<String>,
    pub stealth_mode: Option<bool>,
    pub whisper_model_size: Option<String>,
    pub whisper_language: Option<String>,
    pub audio_source: Option<String>,
    pub vocab_seed: Option<String>,
    pub response_language: Option<String>,
    pub has_onboarded: Option<bool>,
    pub dodge_on_hover: Option<bool>,
    pub process_disguise_name: Option<String>,
    pub passthrough_mode: Option<bool>,
    pub network_jitter: Option<bool>,
    pub proxy_url: Option<String>,
    pub spoof_user_agent: Option<bool>,
}

pub open spec fn text_or(o: Option<String>, keep: Seq<char>) -> Seq<char> {
    match o {
        Some(v) => v@,
        None => keep,
    }
}

pub open spec fn flag_or(o: Option<bool>, keep: bool) -> bool {
    match o {
        Some(v) => v,
        None => keep,
    }
}

/// The state with every stored setting taken over and every missing one
/// left as it was.
pub open spec fn with_stored(s: StateView, c: StoredConfig) -> StateView {
    StateView {
        api_key: text_or(c.api_key, s.api_key),
        model: text_or(c.model, s.model),
        prompt: text_or(c.prompt, s.prompt),
        stealth_mode: flag_or(c.stealth_mode, s.stealth_mode),
        whisper_model_size: text_or(c.whisper_model_size, s.whisper_model_size),
        whisper_language: text_or(c.whisper_language, s.whisper_language),
        audio_source: text_or(c.audio_source, s.audio_source),
        vocab_seed: text_or(c.vocab_seed, s.vocab_seed),
        response_language: text_or(c.response_language, s.response_language),
        has_onboarded: flag_or(c.has_onboarded, s.has_onboarded),
        dodge_on_hover: flag_or(c.dodge_on_hover, s.dodge_on_hover),
        process_disguise_name: text_or(c.process_disguise_name, s.process_disguise_name),
        passthrough_mode: flag_or(c.passthrough_mode, s.passthrough_mode),
        network_jitter: flag_or(c.network_jitter, s.network_jitter),
        proxy_url: text_or(c.proxy_url, s.proxy_url),
        spoof_user_agent: flag_or(c.spoof_user_agent, s.spoof_user_agent),
        ..s
    }
}

/// Each stored setting lands in the state field of that same setting; a
/// setting missing from the store leaves its field as it was.
pub proof fn lemma_stored_fields_match(s: StateView, c: StoredConfig)
    ensures
        with_stored(s, c).api_key == (match c.api_key { Some(v) => v@, None => s.api_key }),
        with_stored(s, c).model == (match c.model { Some(v) => v@, None => s.model }),
        with_stored(s, c).prompt == (match c.prompt { Some(v) => v@, None => s.prompt }),
        with_stored(s, c).stealth_mode == (match c.stealth_mode { Some(v) => v, None => s.stealth_mode }),
        with_stored(s, c).whisper_model_size == (match c.whisper_model_size { Some(v) => v@, None => s.whisper_model_size }),
        with_stored(s, c).whisper_language == (match c.whisper_language { Some(v) => v@, None => s.whisper_language }),
        with_stored(s, c).audio_source == (match c.audio_source { Some(v) => v@, None => s.audio_source }),
        with_stored(s, c).vocab_seed == (match c.vocab_seed { Some(v) => v@, None => s.vocab_seed }),
        with_stored(s, c).response_language == (match c.response_language { Some(v) => v@, None => s.response_language }),
        with_stored(s, c).has_onboarded == (match c.has_onboarded { Some(v) => v, None => s.has_onboarded }),
        with_stored(s, c).dodge_on_hover == (match c.dodge_on_hover { Some(v) => v, None => s.dodge_on_hover }),
        with_stored(s, c).process_disguise_name == (match c.process_disguise_name { Some(v) => v@, None => s.process_disguise_name }),
        with_stored(s, c).passthrough_mode == (match c.passthrough_mode { Some(v) => v, None => s.passthrough_mode }),
        with_stored(s, c).network_jitter == (match c.network_jitter { Some(v) => v, None => s.network_jitter }),
        with_stored(s, c).proxy_url == (match c.proxy_url { Some(v) => v@, None => s.proxy_url }),
        with_stored(s, c).spoof_user_agent == (match c.spoof_user_agent { Some(v) => v, None => s.spoof_user_agent }),
{
}

fn take_text(slot: &mut String, o: Option<String>)
    ensures
        final(slot)@ == text_or(o, old(slot)@),
{
    if let Some(v) = o {
        *slot = v;
    }
}

fn take_flag(slot: &mut bool, o: Option<bool>)
    ensures
        *final(slot) == flag_or(o, *old(slot)),
{
    if let Some(v) = o {
        *slot = v;
    }
}

pub fn load_config_from_store(state: &mut AppState, stored: StoredConfig)
    ensures
        final(state)@ == with_stored(old(state)@, stored),
        final(state)@.api_key == (match stored.api_key { Some(v) => v@, None => old(state)@.api_key }),
        final(state)@.model == (match stored.model { Some(v) => v@, None => old(state)@.model }),
        final(state)@.prompt == (match stored.prompt { Some(v) => v@, None => old(state)@.prompt }),
        final(state)@.stealth_mode == (match stored.stealth_mode { Some(v) => v, None => old(state)@.stealth_mode }),
        final(state)@.whisper_model_size == (match stored.whisper_model_size { Some(v) => v@, None => old(state)@.whisper_model_size }),
        final(state)@.whisper_language == (match stored.whisper_language { Some(v) => v@, None => old(state)@.whisper_language }),
        final(state)@.audio_source == (match stored.audio_source { Some(v) => v@, None => old(state)@.audio_source }),
        final(state)@.vocab_seed == (match stored.vocab_seed { Some(v) => v@, None => old(state)@.vocab_seed }),
        final(state)@.response_language == (match stored.response_language { Some(v) => v@, None => old(state)@.response_language }),
        final(state)@.has_onboarded == (match stored.has_onboarded { Some(v) => v, None => old(state)@.has_onboarded }),
        final(state)@.dodge_on_hover == (match stored.dodge_on_hover { Some(v) => v, None => old(state)@.dodge_on_hover }),
        final(state)@.process_disguise_name == (match stored.process_disguise_name { Some(v) => v@, None => old(state)@.process_disguise_name }),
        final(state)@.passthrough_mode == (match stored.passthrough_mode { Some(v) => v, None => old(state)@.passthrough_mode }),
        final(state)@.network_jitter == (match stored.network_jitter { Some(v) => v, None => old(state)@.network_jitter }),
        final(state)@.proxy_url == (match stored.proxy_url { Some(v) => v@, None => old(state)@.proxy_url }),
        final(state)@.spoof_user_agent == (match stored.spoof_user_agent { Some(v) => v, None => old(state)@.spoof_user_agent }),
{
    let StoredConfig {
        api_key,
        model,
        prompt,
        stealth_mode,
        whisper_model_size,
        whisper_language,
        audio_source,
        vocab_seed,
        response_language,
        has_onboarded,
        dodge_on_hover,
        process_disguise_name,
        passthrough_mode,
        network_jitter,
        proxy_url,
        spoof_user_agent,
    } = stored;
    take_text(&mut state.api_key, api_key);
    take_text(&mut state.model, model);
    take_text(&mut state.prompt, prompt);
    take_flag(&mut state.stealth_mode, stealth_mode);
    take_text(&mut state.whisper_model_size, whisper_model_size);
    take_text(&mut state.whisper_language, whisper_language);
    take_text(&mut state.audio_source, audio_source);
    take_text(&mut state.vocab_seed, vocab_seed);
    take_text(&mut state.response_language, response_language);
    take_flag(&mut state.has_onboarded, has_onboarded);
    take_flag(&mut state.dodge_on_hover, dodge_on_hover);
    take_text(&mut state.process_disguise_name, process_disguise_name);
    take_flag(&mut state.passthrough_mode, passthrough_mode);
    take_flag(&mut state.network_jitter, network_jitter);
    take_text(&mut state.proxy_url, proxy_url);
    take_flag(&mut state.spoof_user_agent, spoof_user_agent);
}

/// What the welcome flow writes to the store, the key and the finished
/// flag, is what the next start reads back, whatever else the store holds.
pub proof fn lemma_onboarding_survives_restart(fresh: StateView, stored: StoredConfig, key: String)
    requires
        stored.api_key == Some(key),
        stored.has_onboarded == Some(true),
    ensures
        with_stored(fresh, stored).api_key == key@,
        with_stored(fresh, stored).has_onboarded,
{
}

// ---------------------------------------------------------------------------
// Sending a transcription
// ---------------------------------------------------------------------------

/// What a transcription request needs from the state.
pub struct TranscriptionRequest {
    pub api_key: String,
    pub model: String,
    pub response_language: String,
}

/// A transcription can only be sent once an API key is set.
pub fn transcription_request(state: &AppState) -> (r: Result<TranscriptionRequest, String>)
    ensures
        match r {
            Ok(q) => state@.api_key.len() > 0 && q.api_key@ == state@.api_key && q.model@
                == state@.model && q.response_language@ == state@.response_language,
            Err(e) => state@.api_key.len() == 0 && e@ == "API key not configured"@,
        },
{
    let api_key = state.get_api_key();
    if api_key.as_str().is_empty() {
        return Err("API key not configured".to_owned());
    }
    Ok(
        TranscriptionRequest {
            api_key,
            model: state.get_model(),
            response_language: state.get_response_language(),
        },
    )
}

} // verus!
