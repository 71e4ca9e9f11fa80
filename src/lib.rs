//! Always-on microphone capture with a rewind (pre-roll) buffer, a streaming
//! resampler and the decision logic of a streaming transcription loop.
//!
//! Floating-point sample arithmetic (amplitude, downmix, interpolation) and all
//! device, channel and backend I/O live with the caller; this crate holds the
//! data structures and rules, generic over the sample type.
use vstd::prelude::*;

pub mod capture;
pub mod context;
pub mod device;
pub mod os;
pub mod resample;
pub mod ring;
pub mod text;
pub mod transcribe;
pub mod transcript;
