//! Which audio streams a recording listens to, and who is speaking.
use vstd::prelude::*;
use crate::text::str_eq;

verus! {

/// The audio captured during a recording.
#[derive(Clone, Copy, Debug, PartialEq, Eq, Structural)]
pub enum AudioSource {
    Mic,
    System,
    Both,
}

/// Who an utterance is attributed to: the microphone is the user, the
/// system output is the other party.
#[derive(Clone, Copy, Debug, PartialEq, Eq, Structural)]
pub enum Speaker {
    User,
    Other,
}

/// The source named by a setting: "mic" and "system" name one stream, any
/// other text both.
pub open spec fn source_named(s: Seq<char>) -> AudioSource {
    if s == "mic"@ {
        AudioSource::Mic
    } else if s == "system"@ {
        AudioSource::System
    } else {
        AudioSource::Both
    }
}

impl AudioSource {
    pub fn from_str(s: &str) -> (r: Self)
        ensures
            r == source_named(s@),
    {
        if str_eq(s, "mic") {
            AudioSource::Mic
        } else if str_eq(s, "system") {
            AudioSource::System
        } else {
            AudioSource::Both
        }
    }

    /// The microphone is captured.
    pub fn captures_mic(&self) -> (r: bool)
        ensures
            r == (*self == AudioSource::Mic || *self == AudioSource::Both),
    {
        match self {
            AudioSource::Mic | AudioSource::Both => true,
            AudioSource::System => false,
        }
    }

    /// The system output is captured.
    pub fn captures_system(&self) -> (r: bool)
        ensures
            r == (*self == AudioSource::System || *self == AudioSource::Both),
    {
        match self {
            AudioSource::System | AudioSource::Both => true,
            AudioSource::Mic => false,
        }
    }
}

} // verus!
