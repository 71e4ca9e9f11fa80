//! Transcript payloads and the transcription backend's handle.
use crate::text::zeroize_string;
use vstd::prelude::*;

verus! {

/// Transcript text that may hold private speech; `scrub` wipes it.
#[derive(Debug)]
pub struct SensitiveTranscript(String);

impl View for SensitiveTranscript {
    type V = Seq<char>;

    closed spec fn view(&self) -> Seq<char> {
        self.0@
    }
}

impl SensitiveTranscript {
    pub fn new(s: String) -> (r: Self)
        ensures
            r@ == s@,
    {
        SensitiveTranscript(s)
    }

    pub fn as_str(&self) -> (r: &str)
        ensures
            r@ == self@,
    {
        self.0.as_str()
    }

    /// Overwrites the text with zeros and leaves it empty.
    pub fn scrub(&mut self)
        ensures
            final(self)@ == Seq::<char>::empty(),
    {
        zeroize_string(&mut self.0);
    }
}

/// Handle of a loaded transcription model.
pub struct WhisperModel {
    loaded: bool,
}

impl WhisperModel {
    pub closed spec fn is_loaded(&self) -> bool {
        self.loaded
    }

    pub fn new() -> (r: Self)
        ensures
            r.is_loaded(),
    {
        WhisperModel { loaded: true }
    }
}

/// What the overlay shows.
#[derive(Clone, Copy, PartialEq, Eq, Structural, Debug)]
pub enum AppStatus {
    Ready,
    Recording,
    Processing,
}

} // verus!
