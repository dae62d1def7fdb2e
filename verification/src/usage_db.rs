//! Token usage as reported by the usage store.
use vstd::prelude::*;

verus! {

/// Tokens consumed by one feature with one model.
pub struct UsageSummary {
    pub feature: String,
    pub model: String,
    pub input_tokens: i64,
    pub output_tokens: i64,
}

/// The feature a recorded use belongs to.
#[derive(Clone, Copy, Debug, PartialEq, Eq, Structural)]
pub enum Feature {
    Screenshot,
    Transcription,
    Watcher,
}

impl Feature {
    /// The name the feature is stored under.
    pub fn name(&self) -> (r: &'static str)
        ensures
            r@ == match self {
                Feature::Screenshot => "screenshot"@,
                Feature::Transcription => "transcription"@,
                Feature::Watcher => "watcher"@,
            },
    {
        match self {
            Feature::Screenshot => "screenshot",
            Feature::Transcription => "transcription",
            Feature::Watcher => "watcher",
        }
    }
}

} // verus!
