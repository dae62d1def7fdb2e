//! The application's settings and session state.
//!
//! The state is a record of named fields. Its model, [`StateView`], is read
//! through [`StateView::field`] and written through [`StateView::with_field`];
//! every getter and setter is stated over those two, and the laws at the end
//! of this file say what a read gives back after a write.
use vstd::prelude::*;
use crate::proctor::{copy_proctors, proctor_views, DetectedProctor, ProctorView};

verus! {

pub open spec fn opt_view(o: Option<String>) -> Option<Seq<char>> {
    match o {
        Some(s) => Some(s@),
        None => None,
    }
}

fn copy_opt(o: &Option<String>) -> (r: Option<String>)
    ensures
        opt_view(r) == opt_view(*o),
{
    match o {
        Some(s) => Some(s.clone()),
        None => None,
    }
}

/// The fields of the state.
pub enum StateField {
    ApiKey,
    Model,
    Prompt,
    LastResponse,
    Processing,
    StealthMode,
    Recording,
    TranscriptionText,
    WhisperModelSize,
    WhisperLanguage,
    AudioSource,
    VocabSeed,
    ResponseLanguage,
    HasOnboarded,
    DodgeOnHover,
    ProcessDisguiseName,
    DetectedProctors,
    PassthroughMode,
    WindowLevel,
    NetworkJitter,
    ProxyUrl,
    SpoofUserAgent,
    UsageDbPath,
    WatcherActive,
    WatcherIntervalMs,
    LastOcrText,
}

/// A value held by one field.
pub enum StateValue {
    Text(Seq<char>),
    Flag(bool),
    MaybeText(Option<Seq<char>>),
    Level(int),
    Millis(nat),
    Proctors(Seq<ProctorView>),
}

/// The model of [`AppState`].
pub struct StateView {
    pub api_key: Seq<char>,
    pub model: Seq<char>,
    pub prompt: Seq<char>,
    pub last_response: Option<Seq<char>>,
    pub is_processing: bool,
    pub stealth_mode: bool,
    pub is_recording: bool,
    pub transcription_text: Seq<char>,
    pub whisper_model_size: Seq<char>,
    pub whisper_language: Seq<char>,
    pub audio_source: Seq<char>,
    pub vocab_seed: Seq<char>,
    pub response_language: Seq<char>,
    pub has_onboarded: bool,
    pub dodge_on_hover: bool,
    pub process_disguise_name: Seq<char>,
    pub detected_proctors: Seq<ProctorView>,
    pub passthrough_mode: bool,
    pub window_level: int,
    pub network_jitter: bool,
    pub proxy_url: Seq<char>,
    pub spoof_user_agent: bool,
    pub usage_db_path: Option<Seq<char>>,
    pub watcher_active: bool,
    pub watcher_interval_ms: nat,
    pub last_ocr_text: Seq<char>,
}

impl StateView {
    /// The value of one field.
    pub open spec fn field(self, f: StateField) -> StateValue {
        match f {
            StateField::ApiKey => StateValue::Text(self.api_key),
            StateField::Model => StateValue::Text(self.model),
            StateField::Prompt => StateValue::Text(self.prompt),
            StateField::LastResponse => StateValue::MaybeText(self.last_response),
            StateField::Processing => StateValue::Flag(self.is_processing),
            StateField::StealthMode => StateValue::Flag(self.stealth_mode),
            StateField::Recording => StateValue::Flag(self.is_recording),
            StateField::TranscriptionText => StateValue::Text(self.transcription_text),
            StateField::WhisperModelSize => StateValue::Text(self.whisper_model_size),
            StateField::WhisperLanguage => StateValue::Text(self.whisper_language),
            StateField::AudioSource => StateValue::Text(self.audio_source),
            StateField::VocabSeed => StateValue::Text(self.vocab_seed),
            StateField::ResponseLanguage => StateValue::Text(self.response_language),
            StateField::HasOnboarded => StateValue::Flag(self.has_onboarded),
            StateField::DodgeOnHover => StateValue::Flag(self.dodge_on_hover),
            StateField::ProcessDisguiseName => StateValue::Text(self.process_disguise_name),
            StateField::DetectedProctors => StateValue::Proctors(self.detected_proctors),
            StateField::PassthroughMode => StateValue::Flag(self.passthrough_mode),
            StateField::WindowLevel => StateValue::Level(self.window_level),
            StateField::NetworkJitter => StateValue::Flag(self.network_jitter),
            StateField::ProxyUrl => StateValue::Text(self.proxy_url),
            StateField::SpoofUserAgent => StateValue::Flag(self.spoof_user_agent),
            StateField::UsageDbPath => StateValue::MaybeText(self.usage_db_path),
            StateField::WatcherActive => StateValue::Flag(self.watcher_active),
            StateField::WatcherIntervalMs => StateValue::Millis(self.watcher_interval_ms),
            StateField::LastOcrText => StateValue::Text(self.last_ocr_text),
        }
    }

    /// Whether `v` is of the kind that field `f` holds.
    pub open spec fn fits(f: StateField, v: StateValue) -> bool {
        match f {
            StateField::ApiKey => v is Text,
            StateField::Model => v is Text,
            StateField::Prompt => v is Text,
            StateField::LastResponse => v is MaybeText,
            StateField::Processing => v is Flag,
            StateField::StealthMode => v is Flag,
            StateField::Recording => v is Flag,
            StateField::TranscriptionText => v is Text,
            StateField::WhisperModelSize => v is Text,
            StateField::WhisperLanguage => v is Text,
            StateField::AudioSource => v is Text,
            StateField::VocabSeed => v is Text,
            StateField::ResponseLanguage => v is Text,
            StateField::HasOnboarded => v is Flag,
            StateField::DodgeOnHover => v is Flag,
            StateField::ProcessDisguiseName => v is Text,
            StateField::DetectedProctors => v is Proctors,
            StateField::PassthroughMode => v is Flag,
            StateField::WindowLevel => v is Level,
            StateField::NetworkJitter => v is Flag,
            StateField::ProxyUrl => v is Text,
            StateField::SpoofUserAgent => v is Flag,
            StateField::UsageDbPath => v is MaybeText,
            StateField::WatcherActive => v is Flag,
            StateField::WatcherIntervalMs => v is Millis,
            StateField::LastOcrText => v is Text,
        }
    }

    /// The state with field `f` replaced by `v` (unchanged where `v` is not
    /// of the field's kind).
    pub open spec fn with_field(self, f: StateField, v: StateValue) -> StateView {
        match f {
            StateField::ApiKey => match v { StateValue::Text(x) => StateView { api_key: x, ..self }, _ => self },
            StateField::Model => match v { StateValue::Text(x) => StateView { model: x, ..self }, _ => self },
            StateField::Prompt => match v { StateValue::Text(x) => StateView { prompt: x, ..self }, _ => self },
            StateField::LastResponse => match v { StateValue::MaybeText(x) => StateView { last_response: x, ..self }, _ => self },
            StateField::Processing => match v { StateValue::Flag(x) => StateView { is_processing: x, ..self }, _ => self },
            StateField::StealthMode => match v { StateValue::Flag(x) => StateView { stealth_mode: x, ..self }, _ => self },
            StateField::Recording => match v { StateValue::Flag(x) => StateView { is_recording: x, ..self }, _ => self },
            StateField::TranscriptionText => match v { StateValue::Text(x) => StateView { transcription_text: x, ..self }, _ => self },
            StateField::WhisperModelSize => match v { StateValue::Text(x) => StateView { whisper_model_size: x, ..self }, _ => self },
            StateField::WhisperLanguage => match v { StateValue::Text(x) => StateView { whisper_language: x, ..self }, _ => self },
            StateField::AudioSource => match v { StateValue::Text(x) => StateView { audio_source: x, ..self }, _ => self },
            StateField::VocabSeed => match v { StateValue::Text(x) => StateView { vocab_seed: x, ..self }, _ => self },
            StateField::ResponseLanguage => match v { StateValue::Text(x) => StateView { response_language: x, ..self }, _ => self },
            StateField::HasOnboarded => match v { StateValue::Flag(x) => StateView { has_onboarded: x, ..self }, _ => self },
            StateField::DodgeOnHover => match v { StateValue::Flag(x) => StateView { dodge_on_hover: x, ..self }, _ => self },
            StateField::ProcessDisguiseName => match v { StateValue::Text(x) => StateView { process_disguise_name: x, ..self }, _ => self },
            StateField::DetectedProctors => match v { StateValue::Proctors(x) => StateView { detected_proctors: x, ..self }, _ => self },
            StateField::PassthroughMode => match v { StateValue::Flag(x) => StateView { passthrough_mode: x, ..self }, _ => self },
            StateField::WindowLevel => match v { StateValue::Level(x) => StateView { window_level: x, ..self }, _ => self },
            StateField::NetworkJitter => match v { StateValue::Flag(x) => StateView { network_jitter: x, ..self }, _ => self },
            StateField::ProxyUrl => match v { StateValue::Text(x) => StateView { proxy_url: x, ..self }, _ => self },
            StateField::SpoofUserAgent => match v { StateValue::Flag(x) => StateView { spoof_user_agent: x, ..self }, _ => self },
            StateField::UsageDbPath => match v { StateValue::MaybeText(x) => StateView { usage_db_path: x, ..self }, _ => self },
            StateField::WatcherActive => match v { StateValue::Flag(x) => StateView { watcher_active: x, ..self }, _ => self },
            StateField::WatcherIntervalMs => match v { StateValue::Millis(x) => StateView { watcher_interval_ms: x, ..self }, _ => self },
            StateField::LastOcrText => match v { StateValue::Text(x) => StateView { last_ocr_text: x, ..self }, _ => self },
        }
    }
}

/// Settings and session state, shared by the panels, the shortcuts and the
/// background workers.
pub struct AppState {
    /// Key for the generative-language API.
    pub api_key: String,
    /// Model that answers screenshot and transcription requests.
    pub model: String,
    /// Instruction sent with each screenshot.
    pub prompt: String,
    /// The latest answer or error shown to the user.
    pub last_response: Option<String>,
    /// A screenshot request is in flight.
    pub is_processing: bool,
    /// Windows are kept out of screen captures.
    pub stealth_mode: bool,
    /// Audio is being captured and transcribed.
    pub is_recording: bool,
    /// The transcript of the current or last recording.
    pub transcription_text: String,
    /// Size name of the speech-recognition model.
    pub whisper_model_size: String,
    /// Language code for speech recognition, or "auto".
    pub whisper_language: String,
    /// "mic", "system" or "both".
    pub audio_source: String,
    /// Vocabulary hint given to the speech recogniser.
    pub vocab_seed: String,
    /// Language that answers must be given in, or "auto".
    pub response_language: String,
    /// The welcome flow has been completed.
    pub has_onboarded: bool,
    /// The panel moves away when hovered.
    pub dodge_on_hover: bool,
    /// Name the process presents itself under; empty for none.
    pub process_disguise_name: String,
    /// Monitoring software found at start-up.
    pub detected_proctors: Vec<DetectedProctor>,
    /// The panel ignores mouse events.
    pub passthrough_mode: bool,
    /// Window level of the panel.
    pub window_level: i64,
    /// Requests are delayed by a random amount.
    pub network_jitter: bool,
    /// Proxy for outgoing requests; empty for none.
    pub proxy_url: String,
    /// Requests carry a browser-like user agent.
    pub spoof_user_agent: bool,
    /// Path of the token-usage database, once opened.
    pub usage_db_path: Option<String>,
    /// The screen watcher is running.
    pub watcher_active: bool,
    /// Pause between two watcher cycles, in milliseconds.
    pub watcher_interval_ms: u64,
    /// Text the watcher read from the screen last time it changed.
    pub last_ocr_text: String,
}

impl View for AppState {
    type V = StateView;

    open spec fn view(&self) -> StateView {
        StateView {
            api_key: self.api_key@,
            model: self.model@,
            prompt: self.prompt@,
            last_response: opt_view(self.last_response),
            is_processing: self.is_processing,
            stealth_mode: self.stealth_mode,
            is_recording: self.is_recording,
            transcription_text: self.transcription_text@,
            whisper_model_size: self.whisper_model_size@,
            whisper_language: self.whisper_language@,
            audio_source: self.audio_source@,
            vocab_seed: self.vocab_seed@,
            response_language: self.response_language@,
            has_onboarded: self.has_onboarded,
            dodge_on_hover: self.dodge_on_hover,
            process_disguise_name: self.process_disguise_name@,
            detected_proctors: proctor_views(self.detected_proctors@),
            passthrough_mode: self.passthrough_mode,
            window_level: self.window_level as int,
            network_jitter: self.network_jitter,
            proxy_url: self.proxy_url@,
            spoof_user_agent: self.spoof_user_agent,
            usage_db_path: opt_view(self.usage_db_path),
            watcher_active: self.watcher_active,
            watcher_interval_ms: self.watcher_interval_ms as nat,
            last_ocr_text: self.last_ocr_text@,
        }
    }
}

/// The state a fresh start begins with.
pub open spec fn default_view() -> StateView {
    StateView {
        api_key: seq![],
        model: "gemini-2.5-flash"@,
        prompt: "Analyze this screenshot and answer any questions visible on screen. Be concise and direct."@,
        last_response: None,
        is_processing: false,
        stealth_mode: true,
        is_recording: false,
        transcription_text: seq![],
        whisper_model_size: "small"@,
        whisper_language: "auto"@,
        audio_source: "both"@,
        vocab_seed: seq![],
        response_language: "auto"@,
        has_onboarded: false,
        dodge_on_hover: false,
        process_disguise_name: seq![],
        detected_proctors: seq![],
        passthrough_mode: false,
        window_level: 25,
        network_jitter: true,
        proxy_url: seq![],
        spoof_user_agent: true,
        usage_db_path: None,
        watcher_active: false,
        watcher_interval_ms: 3000,
        last_ocr_text: seq![],
    }
}

impl Default for AppState {
    fn default() -> (r: AppState)
        ensures
            r@ == default_view(),
    {
        let r = AppState {
            api_key: String::new(),
            model: "gemini-2.5-flash".to_owned(),
            prompt: "Analyze this screenshot and answer any questions visible on screen. Be concise and direct.".to_owned(),
            last_response: None,
            is_processing: false,
            stealth_mode: true,
            is_recording: false,
            transcription_text: String::new(),
            whisper_model_size: "small".to_owned(),
            whisper_language: "auto".to_owned(),
            audio_source: "both".to_owned(),
            vocab_seed: String::new(),
            response_language: "auto".to_owned(),
            has_onboarded: false,
            dodge_on_hover: false,
            process_disguise_name: String::new(),
            detected_proctors: Vec::new(),
            passthrough_mode: false,
            window_level: 25,
            network_jitter: true,
            proxy_url: String::new(),
            spoof_user_agent: true,
            usage_db_path: None,
            watcher_active: false,
            watcher_interval_ms: 3000,
            last_ocr_text: String::new(),
        };
        assert(r@ =~= default_view()) by {
            assert(proctor_views(r.detected_proctors@) =~= seq![]);
        }
        r
    }
}

impl AppState {
    pub fn get_api_key(&self) -> (r: String)
        ensures
            StateValue::Text(r@) == self@.field(StateField::ApiKey),
    {
        self.api_key.clone()
    }

    pub fn set_api_key(&mut self, val: String)
        ensures
            final(self)@ == old(self)@.with_field(StateField::ApiKey, StateValue::Text(val@)),
    {
        self.api_key = val;
    }

    pub fn get_model(&self) -> (r: String)
        ensures
            StateValue::Text(r@) == self@.field(StateField::Model),
    {
        self.model.clone()
    }

    pub fn set_model(&mut self, val: String)
        ensures
            final(self)@ == old(self)@.with_field(StateField::Model, StateValue::Text(val@)),
    {
        self.model = val;
    }

    pub fn get_prompt(&self) -> (r: String)
        ensures
            StateValue::Text(r@) == self@.field(StateField::Prompt),
    {
        self.prompt.clone()
    }

    pub fn set_prompt(&mut self, val: String)
        ensures
            final(self)@ == old(self)@.with_field(StateField::Prompt, StateValue::Text(val@)),
    {
        self.prompt = val;
    }

    pub fn get_last_response(&self) -> (r: Option<String>)
        ensures
            StateValue::MaybeText(opt_view(r)) == self@.field(StateField::LastResponse),
    {
        copy_opt(&self.last_response)
    }

    pub fn set_last_response(&mut self, val: Option<String>)
        ensures
            final(self)@ == old(self)@.with_field(StateField::LastResponse, StateValue::MaybeText(opt_view(val))),
    {
        self.last_response = val;
    }

    pub fn get_processing(&self) -> (r: bool)
        ensures
            StateValue::Flag(r) == self@.field(StateField::Processing),
    {
        self.is_processing
    }

    pub fn set_processing(&mut self, val: bool)
        ensures
            final(self)@ == old(self)@.with_field(StateField::Processing, StateValue::Flag(val)),
    {
        self.is_processing = val;
    }

    pub fn get_stealth_mode(&self) -> (r: bool)
        ensures
            StateValue::Flag(r) == self@.field(StateField::StealthMode),
    {
        self.stealth_mode
    }

    pub fn set_stealth_mode(&mut self, val: bool)
        ensures
            final(self)@ == old(self)@.with_field(StateField::StealthMode, StateValue::Flag(val)),
    {
        self.stealth_mode = val;
    }

    pub fn get_recording(&self) -> (r: bool)
        ensures
            StateValue::Flag(r) == self@.field(StateField::Recording),
    {
        self.is_recording
    }

    pub fn set_recording(&mut self, val: bool)
        ensures
            final(self)@ == old(self)@.with_field(StateField::Recording, StateValue::Flag(val)),
    {
        self.is_recording = val;
    }

    pub fn get_transcription_text(&self) -> (r: String)
        ensures
            StateValue::Text(r@) == self@.field(StateField::TranscriptionText),
    {
        self.transcription_text.clone()
    }

    pub fn set_transcription_text(&mut self, val: String)
        ensures
            final(self)@ == old(self)@.with_field(StateField::TranscriptionText, StateValue::Text(val@)),
    {
        self.transcription_text = val;
    }

    pub fn get_whisper_model_size(&self) -> (r: String)
        ensures
            StateValue::Text(r@) == self@.field(StateField::WhisperModelSize),
    {
        self.whisper_model_size.clone()
    }

    pub fn set_whisper_model_size(&mut self, val: String)
        ensures
            final(self)@ == old(self)@.with_field(StateField::WhisperModelSize, StateValue::Text(val@)),
    {
        self.whisper_model_size = val;
    }

    pub fn get_whisper_language(&self) -> (r: String)
        ensures
            StateValue::Text(r@) == self@.field(StateField::WhisperLanguage),
    {
        self.whisper_language.clone()
    }

    pub fn set_whisper_language(&mut self, val: String)
        ensures
            final(self)@ == old(self)@.with_field(StateField::WhisperLanguage, StateValue::Text(val@)),
    {
        self.whisper_language = val;
    }

    pub fn get_audio_source(&self) -> (r: String)
        ensures
            StateValue::Text(r@) == self@.field(StateField::AudioSource),
    {
        self.audio_source.clone()
    }

    pub fn set_audio_source(&mut self, val: String)
        ensures
            final(self)@ == old(self)@.with_field(StateField::AudioSource, StateValue::Text(val@)),
    {
        self.audio_source = val;
    }

    pub fn get_vocab_seed(&self) -> (r: String)
        ensures
            StateValue::Text(r@) == self@.field(StateField::VocabSeed),
    {
        self.vocab_seed.clone()
    }

    pub fn set_vocab_seed(&mut self, val: String)
        ensures
            final(self)@ == old(self)@.with_field(StateField::VocabSeed, StateValue::Text(val@)),
    {
        self.vocab_seed = val;
    }

    pub fn get_response_language(&self) -> (r: String)
        ensures
            StateValue::Text(r@) == self@.field(StateField::ResponseLanguage),
    {
        self.response_language.clone()
    }

    pub fn set_response_language(&mut self, val: String)
        ensures
            final(self)@ == old(self)@.with_field(StateField::ResponseLanguage, StateValue::Text(val@)),
    {
        self.response_language = val;
    }

    pub fn get_has_onboarded(&self) -> (r: bool)
        ensures
            StateValue::Flag(r) == self@.field(StateField::HasOnboarded),
    {
        self.has_onboarded
    }

    pub fn set_has_onboarded(&mut self, val: bool)
        ensures
            final(self)@ == old(self)@.with_field(StateField::HasOnboarded, StateValue::Flag(val)),
    {
        self.has_onboarded = val;
    }

    pub fn get_dodge_on_hover(&self) -> (r: bool)
        ensures
            StateValue::Flag(r) == self@.field(StateField::DodgeOnHover),
    {
        self.dodge_on_hover
    }

    pub fn set_dodge_on_hover(&mut self, val: bool)
        ensures
            final(self)@ == old(self)@.with_field(StateField::DodgeOnHover, StateValue::Flag(val)),
    {
        self.dodge_on_hover = val;
    }

    pub fn get_process_disguise_name(&self) -> (r: String)
        ensures
            StateValue::Text(r@) == self@.field(StateField::ProcessDisguiseName),
    {
        self.process_disguise_name.clone()
    }

    pub fn set_process_disguise_name(&mut self, val: String)
        ensures
            final(self)@ == old(self)@.with_field(StateField::ProcessDisguiseName, StateValue::Text(val@)),
    {
        self.process_disguise_name = val;
    }

    pub fn get_detected_proctors(&self) -> (r: Vec<DetectedProctor>)
        ensures
            StateValue::Proctors(proctor_views(r@)) == self@.field(StateField::DetectedProctors),
    {
        copy_proctors(&self.detected_proctors)
    }

    pub fn get_passthrough_mode(&self) -> (r: bool)
        ensures
            StateValue::Flag(r) == self@.field(StateField::PassthroughMode),
    {
        self.passthrough_mode
    }

    pub fn set_passthrough_mode(&mut self, val: bool)
        ensures
            final(self)@ == old(self)@.with_field(StateField::PassthroughMode, StateValue::Flag(val)),
    {
        self.passthrough_mode = val;
    }

    pub fn get_window_level(&self) -> (r: i64)
        ensures
            StateValue::Level(r as int) == self@.field(StateField::WindowLevel),
    {
        self.window_level
    }

    pub fn set_window_level(&mut self, val: i64)
        ensures
            final(self)@ == old(self)@.with_field(StateField::WindowLevel, StateValue::Level(val as int)),
    {
        self.window_level = val;
    }

    pub fn get_network_jitter(&self) -> (r: bool)
        ensures
            StateValue::Flag(r) == self@.field(StateField::NetworkJitter),
    {
        self.network_jitter
    }

    pub fn set_network_jitter(&mut self, val: bool)
        ensures
            final(self)@ == old(self)@.with_field(StateField::NetworkJitter, StateValue::Flag(val)),
    {
        self.network_jitter = val;
    }

    pub fn get_proxy_url(&self) -> (r: String)
        ensures
            StateValue::Text(r@) == self@.field(StateField::ProxyUrl),
    {
        self.proxy_url.clone()
    }

    pub fn set_proxy_url(&mut self, val: String)
        ensures
            final(self)@ == old(self)@.with_field(StateField::ProxyUrl, StateValue::Text(val@)),
    {
        self.proxy_url = val;
    }

    pub fn get_spoof_user_agent(&self) -> (r: bool)
        ensures
            StateValue::Flag(r) == self@.field(StateField::SpoofUserAgent),
    {
        self.spoof_user_agent
    }

    pub fn set_spoof_user_agent(&mut self, val: bool)
        ensures
            final(self)@ == old(self)@.with_field(StateField::SpoofUserAgent, StateValue::Flag(val)),
    {
        self.spoof_user_agent = val;
    }

    pub fn get_usage_db_path(&self) -> (r: Option<String>)
        ensures
            StateValue::MaybeText(opt_view(r)) == self@.field(StateField::UsageDbPath),
    {
        copy_opt(&self.usage_db_path)
    }

    pub fn set_usage_db_path(&mut self, val: Option<String>)
        ensures
            final(self)@ == old(self)@.with_field(StateField::UsageDbPath, StateValue::MaybeText(opt_view(val))),
    {
        self.usage_db_path = val;
    }

    pub fn get_watcher_active(&self) -> (r: bool)
        ensures
            StateValue::Flag(r) == self@.field(StateField::WatcherActive),
    {
        self.watcher_active
    }

    pub fn set_watcher_active(&mut self, val: bool)
        ensures
            final(self)@ == old(self)@.with_field(StateField::WatcherActive, StateValue::Flag(val)),
    {
        self.watcher_active = val;
    }

    pub fn get_watcher_interval_ms(&self) -> (r: u64)
        ensures
            StateValue::Millis(r as nat) == self@.field(StateField::WatcherIntervalMs),
    {
        self.watcher_interval_ms
    }

    pub fn set_watcher_interval_ms(&mut self, val: u64)
        ensures
            final(self)@ == old(self)@.with_field(StateField::WatcherIntervalMs, StateValue::Millis(val as nat)),
    {
        self.watcher_interval_ms = val;
    }

    pub fn get_last_ocr_text(&self) -> (r: String)
        ensures
            StateValue::Text(r@) == self@.field(StateField::LastOcrText),
    {
        self.last_ocr_text.clone()
    }

    pub fn set_last_ocr_text(&mut self, val: String)
        ensures
            final(self)@ == old(self)@.with_field(StateField::LastOcrText, StateValue::Text(val@)),
    {
        self.last_ocr_text = val;
    }

}

/// Reading a field gives back the value last written to it.
pub proof fn lemma_read_after_write(s: StateView, f: StateField, v: StateValue)
    requires
        StateView::fits(f, v),
    ensures
        s.with_field(f, v).field(f) == v,
{
}

/// Writing one field leaves every other field as it was.
pub proof fn lemma_write_leaves_others(s: StateView, f: StateField, g: StateField, v: StateValue)
    requires
        f != g,
    ensures
        s.with_field(f, v).field(g) == s.field(g),
{
}

/// A second write to a field replaces the first.
pub proof fn lemma_write_overwrites(s: StateView, f: StateField, v: StateValue, w: StateValue)
    requires
        StateView::fits(f, v),
        StateView::fits(f, w),
    ensures
        s.with_field(f, v).with_field(f, w) == s.with_field(f, w),
{
    match f {
        StateField::ApiKey => {},
        StateField::Model => {},
        StateField::Prompt => {},
        StateField::LastResponse => {},
        StateField::Processing => {},
        StateField::StealthMode => {},
        StateField::Recording => {},
        StateField::TranscriptionText => {},
        StateField::WhisperModelSize => {},
        StateField::WhisperLanguage => {},
        StateField::AudioSource => {},
        StateField::VocabSeed => {},
        StateField::ResponseLanguage => {},
        StateField::HasOnboarded => {},
        StateField::DodgeOnHover => {},
        StateField::ProcessDisguiseName => {},
        StateField::DetectedProctors => {},
        StateField::PassthroughMode => {},
        StateField::WindowLevel => {},
        StateField::NetworkJitter => {},
        StateField::ProxyUrl => {},
        StateField::SpoofUserAgent => {},
        StateField::UsageDbPath => {},
        StateField::WatcherActive => {},
        StateField::WatcherIntervalMs => {},
        StateField::LastOcrText => {},
    }
}

/// Writing a field the value it already holds changes nothing.
pub proof fn lemma_write_same(s: StateView, f: StateField)
    ensures
        s.with_field(f, s.field(f)) == s,
{
}

} // verus!
