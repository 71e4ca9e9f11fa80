//! Per-hardware-buffer capture state: resampling, the rewind buffer, and the
//! decision of which chunks go onto the audio channel.
use crate::resample::{Resampler, Tap};
use crate::ring::{last_n, RewindBuffer};
use vstd::prelude::*;

verus! {

/// Output sample rate of the pipeline, in Hz.
pub const SAMPLE_RATE: u32 = 16000;

/// Seconds of audio kept from before recording starts.
pub const PRE_RECORD_SECONDS: usize = 3;

/// Capacity of the rewind buffer: `SAMPLE_RATE * PRE_RECORD_SECONDS` samples.
pub const RING_BUFFER_SIZE: usize = 48000;

/// The chunks sent for one block of fresh samples: on a `false -> true` edge
/// of the recording flag the rewind buffer as it was before the block first, then, while
/// recording, the fresh samples themselves.
pub open spec fn chunks_to_send<T>(
    was_recording: bool,
    recording_now: bool,
    history: Seq<T>,
    fresh: Seq<T>,
) -> Seq<Seq<T>> {
    let head = if recording_now && !was_recording {
        seq![history]
    } else {
        Seq::empty()
    };
    let tail = if recording_now {
        seq![fresh]
    } else {
        Seq::empty()
    };
    head + tail
}

/// One block through the capture state: the rewind buffer and flag after it,
/// and the chunks it sends.
pub open spec fn capture_step<T>(
    history: Seq<T>,
    was_recording: bool,
    fresh: Seq<T>,
    recording_now: bool,
    cap: nat,
) -> (Seq<T>, bool, Seq<Seq<T>>) {
    if fresh.len() == 0 {
        (history, was_recording, Seq::empty())
    } else {
        (
            last_n(history + fresh, cap),
            recording_now,
            chunks_to_send(was_recording, recording_now, history, fresh),
        )
    }
}

/// A run of blocks, each with the flag read for it: the rewind buffer and flag
/// after the last one, and every chunk sent, in order.
pub open spec fn capture_run<T>(
    history: Seq<T>,
    was_recording: bool,
    blocks: Seq<(Seq<T>, bool)>,
    cap: nat,
) -> (Seq<T>, bool, Seq<Seq<T>>)
    decreases blocks.len(),
{
    if blocks.len() == 0 {
        (history, was_recording, Seq::empty())
    } else {
        let prev = capture_run(history, was_recording, blocks.drop_last(), cap);
        let next = capture_step(prev.0, prev.1, blocks.last().0, blocks.last().1, cap);
        (next.0, next.1, prev.2 + next.2)
    }
}

/// The samples of every block, in order.
pub open spec fn all_samples<T>(blocks: Seq<(Seq<T>, bool)>) -> Seq<T> {
    blocks.map_values(|b: (Seq<T>, bool)| b.0).flatten_alt()
}

/// Keeping the last `cap` items, then appending, then keeping the last `cap`
/// again, is keeping the last `cap` items of the whole.
pub proof fn lemma_last_n_append<T>(s: Seq<T>, x: Seq<T>, cap: nat)
    ensures
        last_n(last_n(s, cap) + x, cap) == last_n(s + x, cap),
{
    let w = last_n(s, cap);
    if s.len() > cap {
        let t = s + x;
        let u = w + x;
        assert(u =~= t.subrange(t.len() - u.len(), t.len() as int));
        assert(last_n(u, cap) =~= last_n(t, cap));
    }
}

proof fn lemma_idle_run<T>(history: Seq<T>, blocks: Seq<(Seq<T>, bool)>, cap: nat)
    requires
        history.len() <= cap,
        forall|i: int| 0 <= i < blocks.len() ==> !(#[trigger] blocks[i]).1,
    ensures
        capture_run(history, false, blocks, cap) == (
            last_n(history + all_samples(blocks), cap),
            false,
            Seq::<Seq<T>>::empty(),
        ),
    decreases blocks.len(),
{
    let f = |b: (Seq<T>, bool)| b.0;
    if blocks.len() == 0 {
        assert(blocks.map_values(f) =~= Seq::<Seq<T>>::empty());
        assert(history + all_samples(blocks) =~= history);
    } else {
        let init = blocks.drop_last();
        assert forall|i: int| 0 <= i < init.len() implies !(#[trigger] init[i]).1 by {
            assert(init[i] == blocks[i]);
        }
        lemma_idle_run(history, init, cap);
        assert(blocks.map_values(f).drop_last() =~= init.map_values(f));
        assert(blocks.map_values(f).last() == blocks.last().0);
        let before = history + all_samples(init);
        let x = blocks.last().0;
        assert(history + all_samples(blocks) =~= before + x);
        lemma_last_n_append(before, x, cap);
        assert(!blocks[blocks.len() - 1].1);
        if x.len() == 0 {
            assert(before + x =~= before);
            assert(last_n(last_n(before, cap), cap) =~= last_n(before, cap));
            assert(Seq::<Seq<T>>::empty() + Seq::<Seq<T>>::empty() =~= Seq::<Seq<T>>::empty());
        } else {
            assert(chunks_to_send(false, false, last_n(before, cap), x) =~= Seq::<
                Seq<T>,
            >::empty());
            assert(Seq::<Seq<T>>::empty() + Seq::<Seq<T>>::empty() =~= Seq::<Seq<T>>::empty());
        }
    }
}

/// Rewind on the recording edge: while the flag is clear nothing is sent, and
/// on the block where it is first seen set the first chunk sent is the pre-roll
/// history, the last `cap` samples produced before that block, followed by
/// that block's own samples; no sample is sent twice.
pub proof fn law_rewind_first_chunk<T>(
    history: Seq<T>,
    idle: Seq<(Seq<T>, bool)>,
    fresh: Seq<T>,
    cap: nat,
)
    requires
        history.len() <= cap,
        fresh.len() > 0,
        forall|i: int| 0 <= i < idle.len() ==> !(#[trigger] idle[i]).1,
    ensures
        capture_run(history, false, idle, cap).2 == Seq::<Seq<T>>::empty(),
        capture_run(history, false, idle.push((fresh, true)), cap).2 == seq![
            last_n(history + all_samples(idle), cap),
            fresh,
        ],
        capture_run(history, false, idle.push((fresh, true)), cap).0 == last_n(
            history + all_samples(idle) + fresh,
            cap,
        ),
{
    lemma_idle_run(history, idle, cap);
    let blocks = idle.push((fresh, true));
    assert(blocks.drop_last() =~= idle);
    let before = history + all_samples(idle);
    lemma_last_n_append(before, fresh, cap);
    assert(Seq::<Seq<T>>::empty() + chunks_to_send(false, true, last_n(before, cap), fresh)
        =~= seq![last_n(before, cap), fresh]);
}

/// The capture state carried from one hardware buffer to the next.
pub struct CaptureState<T> {
    resampler: Resampler<T>,
    ring: RewindBuffer<T>,
    was_recording: bool,
}

impl<T: Copy> CaptureState<T> {
    pub closed spec fn wf(&self) -> bool {
        self.resampler.wf() && self.ring.wf()
    }

    /// The resampler's state.
    pub closed spec fn resampler_view(&self) -> Resampler<T> {
        self.resampler
    }

    /// The rewind buffer's contents, oldest first.
    pub closed spec fn history(&self) -> Seq<T> {
        self.ring@
    }

    pub closed spec fn spec_capacity(&self) -> nat {
        self.ring.spec_capacity()
    }

    pub closed spec fn spec_was_recording(&self) -> bool {
        self.was_recording
    }

    /// A fresh state resampling from `src_rate` to `dst_rate` with a rewind
    /// buffer of `capacity` samples; `None` when either rate is zero.
    pub fn new(src_rate: u32, dst_rate: u32, capacity: usize) -> (r: Option<Self>)
        ensures
            (src_rate > 0 && dst_rate > 0) <==> r is Some,
            r matches Some(c) ==> {
                &&& c.wf()
                &&& c.resampler_view().src() == src_rate
                &&& c.resampler_view().dst() == dst_rate
                &&& c.resampler_view().input() == Seq::<T>::empty()
                &&& c.resampler_view().produced() == 0
                &&& c.history() == Seq::<T>::empty()
                &&& c.spec_capacity() == capacity
                &&& !c.spec_was_recording()
            },
    {
        match Resampler::new(src_rate, dst_rate) {
            Some(resampler) => Some(
                CaptureState { resampler, ring: RewindBuffer::new(capacity), was_recording: false },
            ),
            None => None,
        }
    }

    /// The state for the pipeline's standard output: 16 kHz, three seconds of pre-roll.
    pub fn standard(src_rate: u32) -> (r: Option<Self>)
        ensures
            (src_rate > 0) <==> r is Some,
            r matches Some(c) ==> {
                &&& c.wf()
                &&& c.resampler_view().src() == src_rate
                &&& c.resampler_view().dst() == SAMPLE_RATE
                &&& c.resampler_view().input() == Seq::<T>::empty()
                &&& c.resampler_view().produced() == 0
                &&& c.history() == Seq::<T>::empty()
                &&& c.spec_capacity() == RING_BUFFER_SIZE
                &&& !c.spec_was_recording()
            },
    {
        Self::new(src_rate, SAMPLE_RATE, RING_BUFFER_SIZE)
    }

    pub fn was_recording(&self) -> (r: bool)
        ensures
            r == self.spec_was_recording(),
    {
        self.was_recording
    }

    pub fn capacity(&self) -> (r: usize)
        ensures
            r == self.spec_capacity(),
    {
        self.ring.capacity()
    }

    pub fn dst_rate(&self) -> (r: u32)
        ensures
            r == self.resampler_view().dst(),
    {
        self.resampler.dst_rate()
    }

    /// A copy of the rewind buffer, oldest first.
    pub fn snapshot(&self) -> (r: Vec<T>)
        ensures
            r@ == self.history(),
    {
        self.ring.snapshot()
    }

    /// Feeds one block of downmixed input to the resampler and returns the
    /// taps of the output samples it now yields.
    pub fn resample(&mut self, mono: &Vec<T>) -> (taps: Vec<Tap<T>>)
        requires
            old(self).wf(),
        ensures
            final(self).wf(),
            final(self).history() == old(self).history(),
            final(self).spec_capacity() == old(self).spec_capacity(),
            final(self).spec_was_recording() == old(self).spec_was_recording(),
            final(self).resampler_view().src() == old(self).resampler_view().src(),
            final(self).resampler_view().dst() == old(self).resampler_view().dst(),
            final(self).resampler_view().input() == old(self).resampler_view().input() + mono@,
            final(self).resampler_view().produced() == old(self).resampler_view().produced()
                + taps@.len(),
            final(self).resampler_view().carried() <= 1,
            forall|j: int|
                0 <= j < taps@.len() ==> #[trigger] taps@[j] == crate::resample::tap_at(
                    final(self).resampler_view().input(),
                    (old(self).resampler_view().produced() + j) as nat,
                    final(self).resampler_view().src(),
                    final(self).resampler_view().dst(),
                ),
    {
        self.resampler.process(mono)
    }

    /// Takes the samples produced from one hardware buffer and the recording
    /// flag read for it, and returns the chunks to put on the audio channel,
    /// in order.
    ///
    /// A block that produced no samples changes nothing and sends nothing.
    /// Otherwise, on a `false -> true` edge the buffer's content as it was
    /// before this block goes out first (pre-roll history only), and while
    /// recording the fresh samples follow; then every fresh sample enters the
    /// rewind buffer.
    pub fn push_block(&mut self, fresh: Vec<T>, recording_now: bool) -> (sends: Vec<Vec<T>>)
        requires
            old(self).wf(),
        ensures
            final(self).wf(),
            final(self).resampler_view() == old(self).resampler_view(),
            final(self).spec_capacity() == old(self).spec_capacity(),
            (final(self).history(), final(self).spec_was_recording(), sends@.map_values(
                |c: Vec<T>| c@,
            )) == capture_step(
                old(self).history(),
                old(self).spec_was_recording(),
                fresh@,
                recording_now,
                old(self).spec_capacity(),
            ),
            fresh@.len() == 0 ==> {
                &&& final(self).history() == old(self).history()
                &&& final(self).spec_was_recording() == old(self).spec_was_recording()
                &&& sends@.len() == 0
            },
            fresh@.len() > 0 ==> {
                &&& final(self).history() == last_n(
                    old(self).history() + fresh@,
                    old(self).spec_capacity(),
                )
                &&& final(self).spec_was_recording() == recording_now
                &&& sends@.map_values(|c: Vec<T>| c@) == chunks_to_send(
                    old(self).spec_was_recording(),
                    recording_now,
                    old(self).history(),
                    fresh@,
                )
            },
    {
        let mut sends: Vec<Vec<T>> = Vec::new();
        if fresh.len() == 0 {
            assert(sends@.map_values(|c: Vec<T>| c@) =~= Seq::<Seq<T>>::empty());
            return sends;
        }
        let ghost before = self.ring@;
        if recording_now && !self.was_recording {
            sends.push(self.ring.snapshot());
        }
        self.ring.push_all(&fresh);
        if recording_now {
            sends.push(fresh);
        }
        self.was_recording = recording_now;
        assert(sends@.map_values(|c: Vec<T>| c@) =~= chunks_to_send(
            old(self).was_recording,
            recording_now,
            before,
            fresh@,
        ));
        sends
    }
}

} // verus!
