//! Decisions of the streaming transcription loop.
//!
//! The loop that owns the audio channel and the transcription backend hands
//! each receive outcome to [`TranscriptionSession::on_event`] and performs the
//! action it gets back; backend results come back through `on_partial` and
//! `on_final`, which say what to emit.
use crate::text::{trim_text, trimmed, views_of};
use crate::transcript::SensitiveTranscript;
use vstd::prelude::*;
use vstd::string::StringExecFns;

verus! {

/// A partial transcript is attempted only above this many accumulated samples (0.2 s).
pub const MIN_PARTIAL_SAMPLES: usize = 3200;

/// Least time between two partial transcripts, in milliseconds.
pub const PARTIAL_INTERVAL_MS: u64 = 600;

/// A session is finalized once it holds this many samples (30 s at 16 kHz).
pub const MAX_SESSION_SAMPLES: usize = 480000;

/// How long a receive waits before it counts as silence, in milliseconds.
pub const SILENCE_TIMEOUT_MS: u64 = 200;

#[derive(Clone, Copy, PartialEq, Eq, Structural, Debug)]
pub enum Phase {
    Idle,
    Accumulating,
    Finalizing,
}

/// The outcome of one receive on the audio channel.
pub enum LoopEvent<T> {
    Chunk(Vec<T>),
    Timeout,
    Closed,
}

/// What the loop does next.
#[derive(Clone, Copy, PartialEq, Eq, Structural, Debug)]
pub enum LoopAction {
    /// Receive again.
    Wait,
    /// Run the backend over all accumulated samples and report through `on_partial`.
    Partial,
    /// Run the backend over all accumulated samples and report through `on_final`.
    Finalize,
    /// The buffer reached its cap while a partial was due: report the partial
    /// through `on_partial` first, then finalize as for `Finalize`.
    PartialThenFinalize,
    /// The channel is closed and nothing is pending: the loop ends.
    Stop,
}

/// A transcript event for the consumer.
#[derive(Debug)]
pub enum Emission {
    /// Ghost text; an empty one clears it.
    Partial(String),
    /// The finished transcript of a session.
    Final(SensitiveTranscript),
}

/// The mathematical state of a session.
pub struct SessionView<T> {
    pub samples: Seq<T>,
    pub last_partial_ms: u64,
    pub phase: Phase,
}

pub open spec fn partial_due(len: nat, last_partial_ms: u64, now_ms: u64) -> bool {
    &&& len > MIN_PARTIAL_SAMPLES
    &&& now_ms >= last_partial_ms
    &&& now_ms - last_partial_ms >= PARTIAL_INTERVAL_MS
}

/// The state of a session started, or restarted, at `now_ms`.
pub open spec fn fresh_session<T>(now_ms: u64) -> SessionView<T> {
    SessionView { samples: Seq::empty(), last_partial_ms: now_ms, phase: Phase::Idle }
}

/// One transition of the loop: the next state and the action to take.
pub open spec fn step<T>(s: SessionView<T>, ev: LoopEvent<T>, now_ms: u64) -> (
    SessionView<T>,
    LoopAction,
) {
    if s.phase == Phase::Finalizing {
        match ev {
            LoopEvent::Chunk(c) => (
                SessionView {
                    samples: s.samples + c@,
                    last_partial_ms: s.last_partial_ms,
                    phase: Phase::Finalizing,
                },
                LoopAction::Finalize,
            ),
            _ => (s, LoopAction::Finalize),
        }
    } else {
        match ev {
            LoopEvent::Chunk(c) => {
                let buf = s.samples + c@;
                let phase = if buf.len() > 0 {
                    Phase::Accumulating
                } else {
                    s.phase
                };
                if buf.len() >= MAX_SESSION_SAMPLES {
                    (
                        SessionView {
                            samples: buf,
                            last_partial_ms: s.last_partial_ms,
                            phase: Phase::Finalizing,
                        },
                        if partial_due(buf.len(), s.last_partial_ms, now_ms) {
                            LoopAction::PartialThenFinalize
                        } else {
                            LoopAction::Finalize
                        },
                    )
                } else if partial_due(buf.len(), s.last_partial_ms, now_ms) {
                    (
                        SessionView { samples: buf, last_partial_ms: s.last_partial_ms, phase },
                        LoopAction::Partial,
                    )
                } else {
                    (
                        SessionView { samples: buf, last_partial_ms: s.last_partial_ms, phase },
                        LoopAction::Wait,
                    )
                }
            },
            LoopEvent::Timeout => {
                if s.samples.len() > 0 {
                    (
                        SessionView {
                            samples: s.samples,
                            last_partial_ms: s.last_partial_ms,
                            phase: Phase::Finalizing,
                        },
                        LoopAction::Finalize,
                    )
                } else {
                    (s, LoopAction::Wait)
                }
            },
            LoopEvent::Closed => {
                if s.samples.len() > 0 {
                    (
                        SessionView {
                            samples: s.samples,
                            last_partial_ms: s.last_partial_ms,
                            phase: Phase::Finalizing,
                        },
                        LoopAction::Finalize,
                    )
                } else {
                    (s, LoopAction::Stop)
                }
            },
        }
    }
}

/// Samples accumulated since the last finalization, with the loop's phase.
pub struct TranscriptionSession<T> {
    samples: Vec<T>,
    last_partial_ms: u64,
    phase: Phase,
}

impl<T> View for TranscriptionSession<T> {
    type V = SessionView<T>;

    closed spec fn view(&self) -> SessionView<T> {
        SessionView {
            samples: self.samples@,
            last_partial_ms: self.last_partial_ms,
            phase: self.phase,
        }
    }
}

/// A session is idle exactly when it holds no samples.
pub open spec fn session_wf<T>(s: SessionView<T>) -> bool {
    (s.phase == Phase::Idle) == (s.samples.len() == 0)
}

impl<T> TranscriptionSession<T> {
    /// A session started at `now_ms`.
    pub fn new(now_ms: u64) -> (r: Self)
        ensures
            r@ == fresh_session::<T>(now_ms),
            session_wf(r@),
    {
        let r = TranscriptionSession { samples: Vec::new(), last_partial_ms: now_ms, phase: Phase::Idle };
        assert(r@.samples =~= Seq::<T>::empty());
        r
    }

    /// The accumulated samples, oldest first.
    pub fn samples(&self) -> (r: &Vec<T>)
        ensures
            r@ == self@.samples,
    {
        &self.samples
    }

    pub fn phase(&self) -> (r: Phase)
        ensures
            r == self@.phase,
    {
        self.phase
    }

    /// Takes in the outcome of one receive at time `now_ms`, and says what to do.
    pub fn on_event(&mut self, ev: LoopEvent<T>, now_ms: u64) -> (action: LoopAction)
        requires
            session_wf(old(self)@),
        ensures
            (final(self)@, action) == step(old(self)@, ev, now_ms),
            session_wf(final(self)@),
    {
        if self.phase == Phase::Finalizing {
            if let LoopEvent::Chunk(c) = ev {
                let mut c = c;
                self.samples.append(&mut c);
            }
            return LoopAction::Finalize;
        }
        match ev {
            LoopEvent::Chunk(c) => {
                let mut c = c;
                let ghost before = self.samples@;
                let ghost chunk = c@;
                self.samples.append(&mut c);
                assert(self.samples@ == before + chunk);
                if self.samples.len() > 0 {
                    self.phase = Phase::Accumulating;
                }
                let due = self.samples.len() > MIN_PARTIAL_SAMPLES && now_ms
                    >= self.last_partial_ms && now_ms - self.last_partial_ms
                    >= PARTIAL_INTERVAL_MS;
                if self.samples.len() >= MAX_SESSION_SAMPLES {
                    self.phase = Phase::Finalizing;
                    if due {
                        LoopAction::PartialThenFinalize
                    } else {
                        LoopAction::Finalize
                    }
                } else if due {
                    LoopAction::Partial
                } else {
                    LoopAction::Wait
                }
            },
            LoopEvent::Timeout => {
                if self.samples.len() > 0 {
                    self.phase = Phase::Finalizing;
                    LoopAction::Finalize
                } else {
                    LoopAction::Wait
                }
            },
            LoopEvent::Closed => {
                if self.samples.len() > 0 {
                    self.phase = Phase::Finalizing;
                    LoopAction::Finalize
                } else {
                    LoopAction::Stop
                }
            },
        }
    }

    /// Records a partial transcript made at `now_ms` over the current samples,
    /// and returns it as ghost text to emit.
    pub fn on_partial(&mut self, text: String, now_ms: u64) -> (e: Emission)
        requires
            session_wf(old(self)@),
        ensures
            final(self)@ == (SessionView {
                samples: old(self)@.samples,
                last_partial_ms: now_ms,
                phase: old(self)@.phase,
            }),
            session_wf(final(self)@),
            e matches Emission::Partial(t) && t@ == text@,
    {
        self.last_partial_ms = now_ms;
        Emission::Partial(text)
    }

    /// Moves the accumulated samples out, so that the caller can wipe them
    /// once the backend is done; the session is left idle.
    pub fn take_samples(&mut self) -> (r: Vec<T>)
        ensures
            r@ == old(self)@.samples,
            final(self)@ == (SessionView {
                samples: Seq::<T>::empty(),
                last_partial_ms: old(self)@.last_partial_ms,
                phase: Phase::Idle,
            }),
            session_wf(final(self)@),
    {
        let mut r: Vec<T> = Vec::new();
        core::mem::swap(&mut r, &mut self.samples);
        self.phase = Phase::Idle;
        assert(self@.samples =~= Seq::<T>::empty());
        r
    }

    /// Finishes the session with the backend's text over all accumulated
    /// samples, and restarts it at `now_ms`.
    ///
    /// Returns, in order, the empty ghost text that clears the overlay and the
    /// final transcript, trimmed of surrounding whitespace.
    pub fn on_final(&mut self, text: String, now_ms: u64) -> (out: Vec<Emission>)
        ensures
            final(self)@ == fresh_session::<T>(now_ms),
            session_wf(final(self)@),
            out@.len() == 2,
            out@[0] matches Emission::Partial(t) && t@ == Seq::<char>::empty(),
            out@[1] matches Emission::Final(t) && t@ == trimmed(text@),
    {
        self.samples = Vec::new();
        self.phase = Phase::Idle;
        self.last_partial_ms = now_ms;
        assert(self@.samples =~= Seq::<T>::empty());
        let mut out: Vec<Emission> = Vec::new();
        out.push(Emission::Partial(String::new()));
        out.push(Emission::Final(SensitiveTranscript::new(trim_text(text.as_str()))));
        out
    }
}

/// The transcript reported instead of a session when the model file is missing.
pub fn missing_model_notice(model_filename: &str) -> (r: SensitiveTranscript)
    ensures
        r@ == "Error: AI model not found. Please download "@ + model_filename@
            + " in settings."@,
{
    SensitiveTranscript::new(
        String::from_str("Error: AI model not found. Please download ").concat(
            model_filename,
        ).concat(" in settings."),
    )
}

/// The transcript reported instead of a session when the model file exists
/// but cannot be loaded (corrupt or of another format).
pub fn unreadable_model_notice(model_filename: &str) -> (r: SensitiveTranscript)
    ensures
        r@ == "Error: AI model could not be loaded. Please download "@ + model_filename@
            + " again in settings."@,
{
    SensitiveTranscript::new(
        String::from_str("Error: AI model could not be loaded. Please download ").concat(
            model_filename,
        ).concat(" again in settings."),
    )
}

/// The text of one backend run: its segments joined in order, or empty text
/// when the run failed (a failed run is not fatal to the session).
pub fn backend_text(succeeded: bool, segments: &Vec<String>) -> (r: String)
    ensures
        succeeded ==> r@ == views_of(segments@).flatten_alt(),
        !succeeded ==> r@ == Seq::<char>::empty(),
{
    let mut out = String::new();
    if !succeeded {
        return out;
    }
    let mut i: usize = 0;
    while i < segments.len()
        invariant
            0 <= i <= segments@.len(),
            out@ == views_of(segments@.subrange(0, i as int)).flatten_alt(),
        decreases segments@.len() - i,
    {
        proof {
            let next = views_of(segments@.subrange(0, i + 1));
            assert(next.drop_last() =~= views_of(segments@.subrange(0, i as int)));
            assert(next.last() == segments@[i as int]@);
        }
        out.append(segments[i].as_str());
        i = i + 1;
    }
    assert(segments@.subrange(0, segments@.len() as int) =~= segments@);
    out
}

/// The state after a run of receive timeouts at the given times, with the
/// action taken at each.
pub open spec fn run_timeouts<T>(s: SessionView<T>, times: Seq<u64>) -> (
    SessionView<T>,
    Seq<LoopAction>,
)
    decreases times.len(),
{
    if times.len() == 0 {
        (s, Seq::empty())
    } else {
        let first = step(s, LoopEvent::Timeout, times[0]);
        let rest = run_timeouts(first.0, times.drop_first());
        (rest.0, seq![first.1] + rest.1)
    }
}

/// Reaching the cap finalizes without waiting for silence: a chunk that
/// brings the buffer to `MAX_SESSION_SAMPLES` makes the session finalize over
/// every sample received (after the partial that was due, if any), and no
/// later event is lost or delays it.
pub proof fn law_cap_forces_finalization<T>(
    s: SessionView<T>,
    c: Vec<T>,
    now_ms: u64,
    later: LoopEvent<T>,
    later_ms: u64,
)
    requires
        session_wf(s),
        s.phase != Phase::Finalizing,
        s.samples.len() + c@.len() >= MAX_SESSION_SAMPLES,
    ensures
        ({
            let (t, a) = step(s, LoopEvent::Chunk(c), now_ms);
            &&& t.phase == Phase::Finalizing
            &&& t.samples == s.samples + c@
            &&& session_wf(t)
            &&& (a == LoopAction::Finalize || a == LoopAction::PartialThenFinalize)
            &&& (a == LoopAction::PartialThenFinalize <==> partial_due(
                t.samples.len(),
                s.last_partial_ms,
                now_ms,
            ))
            &&& step(t, later, later_ms).1 == LoopAction::Finalize
            &&& step(t, later, later_ms).0.phase == Phase::Finalizing
            &&& step(t, later, later_ms).0.samples.len() >= t.samples.len()
            &&& step(t, later, later_ms).0.samples.subrange(0, t.samples.len() as int)
                == t.samples
        }),
{
    let t = step(s, LoopEvent::Chunk(c), now_ms).0;
    match later {
        LoopEvent::Chunk(d) => {
            assert(step(t, later, later_ms).0.samples.subrange(0, t.samples.len() as int)
                =~= t.samples);
        },
        _ => {
            assert(t.samples.subrange(0, t.samples.len() as int) =~= t.samples);
        },
    }
}

/// While nothing is accumulated, any run of receive timeouts
/// leaves the session as it was and only ever waits, so the backend is never
/// invoked and no final transcript is emitted.
pub proof fn law_silence_is_idempotent<T>(s: SessionView<T>, times: Seq<u64>)
    requires
        session_wf(s),
        s.samples.len() == 0,
    ensures
        run_timeouts(s, times).0 == s,
        run_timeouts(s, times).1.len() == times.len(),
        forall|i: int| 0 <= i < times.len() ==> run_timeouts(s, times).1[i] == LoopAction::Wait,
    decreases times.len(),
{
    if times.len() > 0 {
        law_silence_is_idempotent(s, times.drop_first());
        let rest = run_timeouts(s, times.drop_first());
        assert forall|i: int| 0 <= i < times.len() implies run_timeouts(s, times).1[i]
            == LoopAction::Wait by {
            if i > 0 {
                assert(run_timeouts(s, times).1[i] == rest.1[i - 1]);
            }
        }
    }
}

} // verus!
