//! Starting and stopping a recording, and building its transcript.
use vstd::prelude::*;
use vstd::string::StringExecFns;
use crate::audio::{source_named, AudioSource, Speaker};
use crate::state::{AppState, StateField, StateValue, StateView};
use crate::text::{chars_of, push_char, str_eq, string_of, trim, trim_chars};

verus! {

/// How much new speech (three seconds) is gathered between two previews.
pub const PREVIEW_INTERVAL_SAMPLES: usize = 48000;

/// The settings a recording runs with, taken when it starts.
pub struct RecordingSettings {
    pub model_size: String,
    pub language: String,
    pub source: AudioSource,
    pub vocab_seed: String,
}

/// The state once a recording has started: recording, with an empty
/// transcript.
pub open spec fn started(s: StateView) -> StateView {
    s.with_field(StateField::Recording, StateValue::Flag(true)).with_field(
        StateField::TranscriptionText,
        StateValue::Text(seq![]),
    )
}

/// The state once a recording has stopped.
pub open spec fn stopped(s: StateView) -> StateView {
    s.with_field(StateField::Recording, StateValue::Flag(false))
}

/// What starting does to a state: refused (none) while a recording runs,
/// otherwise the started state.
pub open spec fn start_outcome(s: StateView) -> Option<StateView> {
    if s.is_recording {
        None
    } else {
        Some(started(s))
    }
}

/// What stopping does to a state: refused (none) unless a recording runs,
/// otherwise the stopped state and the transcript handed back.
pub open spec fn stop_outcome(s: StateView) -> Option<(StateView, Seq<char>)> {
    if !s.is_recording {
        None
    } else {
        Some((stopped(s), s.transcription_text))
    }
}

/// Starts a recording unless one is running.
pub fn start(state: &mut AppState) -> (r: Result<RecordingSettings, String>)
    ensures
        (r is Err) == (start_outcome(old(state)@) is None),
        r is Ok ==> start_outcome(old(state)@) == Some(final(state)@),
        match r {
            Ok(settings) => {
                &&& !old(state)@.is_recording
                &&& final(state)@ == started(old(state)@)
                &&& settings.model_size@ == old(state)@.whisper_model_size
                &&& settings.language@ == old(state)@.whisper_language
                &&& settings.source == source_named(old(state)@.audio_source)
                &&& settings.vocab_seed@ == old(state)@.vocab_seed
            },
            Err(e) => {
                &&& old(state)@.is_recording
                &&& final(state)@ == old(state)@
                &&& e@ == "Already recording"@
            },
        },
{
    if state.get_recording() {
        return Err("Already recording".to_owned());
    }
    let model_size = state.get_whisper_model_size();
    let language = state.get_whisper_language();
    let source_str = state.get_audio_source();
    let vocab_seed = state.get_vocab_seed();
    let source = AudioSource::from_str(source_str.as_str());
    state.set_recording(true);
    state.set_transcription_text(String::new());
    Ok(RecordingSettings { model_size, language, source, vocab_seed })
}

/// Marks a recording whose capture could not start as not running.
pub fn abandon(state: &mut AppState)
    ensures
        final(state)@ == stopped(old(state)@),
{
    state.set_recording(false);
}

/// Stops the running recording and hands back its transcript.
pub fn stop(state: &mut AppState) -> (r: Result<String, String>)
    ensures
        (r is Err) == (stop_outcome(old(state)@) is None),
        r matches Ok(t) ==> stop_outcome(old(state)@) == Some((final(state)@, t@)),
        match r {
            Ok(t) => {
                &&& old(state)@.is_recording
                &&& final(state)@ == stopped(old(state)@)
                &&& t@ == old(state)@.transcription_text
            },
            Err(e) => {
                &&& !old(state)@.is_recording
                &&& final(state)@ == old(state)@
                &&& e@ == "Not recording"@
            },
        },
{
    if !state.get_recording() {
        return Err("Not recording".to_owned());
    }
    state.set_recording(false);
    Ok(state.get_transcription_text())
}

/// A recording started and stopped straight away hands back an empty
/// transcript and leaves the state as before but for the transcript.
pub proof fn lemma_start_then_stop(s: StateView)
    requires
        !s.is_recording,
    ensures
        stopped(started(s)).transcription_text == Seq::<char>::empty(),
        stopped(started(s)) == s.with_field(StateField::TranscriptionText, StateValue::Text(seq![])),
        started(s).is_recording,
{
}

/// Starting twice fails the second time; stopping twice fails the second
/// time.
pub proof fn lemma_no_double_start_or_stop(s: StateView)
    ensures
        start_outcome(s) matches Some(t) ==> start_outcome(t) is None,
        stop_outcome(s) matches Some((t, _)) ==> stop_outcome(t) is None,
{
}

// ---------------------------------------------------------------------------
// Transcript
// ---------------------------------------------------------------------------

pub open spec fn label_of(speaker: Speaker) -> Seq<char> {
    match speaker {
        Speaker::User => "[You]"@,
        Speaker::Other => "[Other]"@,
    }
}

/// The label a transcript line starts with.
pub fn speaker_label(speaker: Speaker) -> (r: &'static str)
    ensures
        r@ == label_of(speaker),
{
    match speaker {
        Speaker::User => "[You]",
        Speaker::Other => "[Other]",
    }
}

/// The transcript with one more line: a line break unless it is empty, then
/// the speaker's label, a space and the text.
pub open spec fn with_line(transcript: Seq<char>, speaker: Speaker, text: Seq<char>) -> Seq<char> {
    (if transcript.len() == 0 {
        transcript
    } else {
        transcript.push('\n')
    }) + label_of(speaker) + " "@ + text
}

pub fn append_line(transcript: &mut String, speaker: Speaker, text: &str)
    ensures
        final(transcript)@ == with_line(old(transcript)@, speaker, text@),
{
    if !transcript.as_str().is_empty() {
        push_char(transcript, '\n');
    }
    transcript.append(speaker_label(speaker));
    transcript.append(" ");
    transcript.append(text);
}

/// A preview line: the speaker's label, a space and the text.
pub fn preview_line(speaker: Speaker, text: &str) -> (r: String)
    ensures
        r@ == label_of(speaker) + " "@ + text@,
{
    let mut s = speaker_label(speaker).to_owned();
    s.append(" ");
    s.append(text);
    s
}

/// Lines already written are never changed by a new one.
pub proof fn lemma_lines_only_grow(transcript: Seq<char>, speaker: Speaker, text: Seq<char>)
    ensures
        with_line(transcript, speaker, text).subrange(0, transcript.len() as int) == transcript,
{
    assert(with_line(transcript, speaker, text).subrange(0, transcript.len() as int)
        =~= transcript);
}

/// The language is detected from the first utterance when it is set to
/// "auto".
pub fn should_detect_language(locked_language: &str, transcript: &str) -> (r: bool)
    ensures
        r == (locked_language@ == "auto"@ && transcript@.len() == 0),
{
    str_eq(locked_language, "auto") && transcript.is_empty()
}

/// A new preview is due once three more seconds of speech have gathered.
pub fn preview_due(current_samples: usize, last_preview_samples: usize) -> (r: bool)
    ensures
        r == (current_samples >= last_preview_samples + PREVIEW_INTERVAL_SAMPLES),
{
    current_samples >= last_preview_samples && current_samples - last_preview_samples
        >= PREVIEW_INTERVAL_SAMPLES
}

/// The transcript handed back when a recording ends: trimmed.
pub fn final_transcript(transcript: &str) -> (r: String)
    ensures
        r@ == trim(transcript@),
{
    let cs = chars_of(transcript);
    let t = trim_chars(&cs);
    string_of(&t)
}

// ---------------------------------------------------------------------------
// The transcription session
// ---------------------------------------------------------------------------

/// What the transcription worker keeps from one utterance to the next.
pub struct TranscriptSession {
    /// The transcript so far.
    pub transcript: String,
    /// The language recognition runs in; "auto" until one is detected.
    pub language: String,
    /// How much speech had gathered at the last preview.
    pub last_preview_samples: usize,
}

/// A session for a recording that starts in `language`.
pub fn new_session(language: String) -> (r: TranscriptSession)
    ensures
        r.transcript@ == Seq::<char>::empty(),
        r.language@ == language@,
        r.last_preview_samples == 0,
{
    TranscriptSession { transcript: String::new(), language, last_preview_samples: 0 }
}

/// A confirmed utterance arrives: the preview count starts again. Tells
/// whether its language is to be detected before it is transcribed.
pub fn utterance_begins(s: &mut TranscriptSession) -> (detect: bool)
    ensures
        detect == (old(s).language@ == "auto"@ && old(s).transcript@.len() == 0),
        final(s).last_preview_samples == 0,
        final(s).transcript@ == old(s).transcript@,
        final(s).language@ == old(s).language@,
{
    s.last_preview_samples = 0;
    should_detect_language(s.language.as_str(), s.transcript.as_str())
}

/// A detected language is kept for the rest of the recording.
pub fn language_detected(s: &mut TranscriptSession, detected: Option<String>)
    ensures
        final(s).language@ == match detected {
            Some(l) => l@,
            None => old(s).language@,
        },
        final(s).transcript@ == old(s).transcript@,
        final(s).last_preview_samples == old(s).last_preview_samples,
{
    if let Some(l) = detected {
        s.language = l;
    }
}

/// The recogniser's text for an utterance, when there is some, becomes a
/// new line of the transcript. Tells whether the transcript grew.
pub fn utterance_transcribed(s: &mut TranscriptSession, speaker: Speaker, text: Option<String>) -> (grew:
    bool)
    ensures
        grew == (text matches Some(t) && t@.len() > 0),
        final(s).transcript@ == match text {
            Some(t) => if t@.len() > 0 {
                with_line(old(s).transcript@, speaker, t@)
            } else {
                old(s).transcript@
            },
            None => old(s).transcript@,
        },
        final(s).language@ == old(s).language@,
        final(s).last_preview_samples == old(s).last_preview_samples,
{
    match text {
        Some(t) => {
            if t.as_str().is_empty() {
                false
            } else {
                append_line(&mut s.transcript, speaker, t.as_str());
                true
            }
        },
        None => false,
    }
}

/// Whether a preview of the speech gathered so far is due.
pub fn preview_wanted(s: &TranscriptSession, speaking: bool, current_samples: usize) -> (r: bool)
    ensures
        r == (speaking && current_samples >= s.last_preview_samples + PREVIEW_INTERVAL_SAMPLES),
{
    speaking && preview_due(current_samples, s.last_preview_samples)
}

/// A preview was taken of `current_samples` samples of speech.
pub fn preview_taken(s: &mut TranscriptSession, current_samples: usize)
    ensures
        final(s).last_preview_samples == current_samples,
        final(s).transcript@ == old(s).transcript@,
        final(s).language@ == old(s).language@,
{
    s.last_preview_samples = current_samples;
}

/// The transcript handed back when the recording ends: trimmed.
pub fn finish_session(s: &TranscriptSession) -> (r: String)
    ensures
        r@ == trim(s.transcript@),
{
    final_transcript(s.transcript.as_str())
}

} // verus!
