use vibeflow::capture::{CaptureState, RING_BUFFER_SIZE, SAMPLE_RATE};
use vibeflow::resample::{Resampler, Tap};
use vibeflow::ring::RewindBuffer;

fn interpolate(taps: &[Tap<f32>], dst_rate: u32) -> Vec<f32> {
    taps.iter()
        .map(|t| t.left + (t.right - t.left) * (t.offset as f32 / dst_rate as f32))
        .collect()
}

/// Runs one hardware block through the capture state as the audio callback does.
fn run_block(state: &mut CaptureState<f32>, block: &[f32], recording: bool) -> Vec<Vec<f32>> {
    let taps = state.resample(&block.to_vec());
    let fresh = interpolate(&taps, state.dst_rate());
    state.push_block(fresh, recording)
}

#[test]
fn ring_keeps_items_below_capacity() {
    let mut r: RewindBuffer<u32> = RewindBuffer::new(4);
    r.push(1);
    r.push(2);
    assert_eq!(r.len(), 2);
    assert_eq!(r.snapshot(), vec![1, 2]);
}

#[test]
fn ring_evicts_oldest_when_full() {
    let mut r: RewindBuffer<u32> = RewindBuffer::new(3);
    for x in 1..=7u32 {
        r.push(x);
        assert!(r.len() <= 3);
    }
    assert_eq!(r.snapshot(), vec![5, 6, 7]);
    assert_eq!(r.capacity(), 3);
}

#[test]
fn ring_push_all_keeps_most_recent_capacity_samples() {
    let mut r: RewindBuffer<u32> = RewindBuffer::new(4);
    r.push(100);
    r.push_all(&(0..10u32).collect());
    assert_eq!(r.snapshot(), vec![6, 7, 8, 9]);
}

#[test]
fn ring_of_zero_capacity_holds_nothing() {
    let mut r: RewindBuffer<u32> = RewindBuffer::new(0);
    r.push(1);
    assert_eq!(r.len(), 0);
    assert!(r.snapshot().is_empty());
}

#[test]
fn snapshot_does_not_change_the_buffer() {
    let mut r: RewindBuffer<u32> = RewindBuffer::new(2);
    r.push(1);
    let a = r.snapshot();
    let b = r.snapshot();
    assert_eq!(a, b);
    assert_eq!(r.len(), 1);
}

#[test]
fn resampler_rejects_zero_rates() {
    assert!(Resampler::<f32>::new(0, 16000).is_none());
    assert!(Resampler::<f32>::new(48000, 0).is_none());
    assert!(Resampler::<f32>::new(48000, 16000).is_some());
}

#[test]
fn resampler_output_count_follows_rate_ratio() {
    let mut r = Resampler::<f32>::new(48000, 16000).unwrap();
    let mut total_in = 0usize;
    let mut total_out = 0usize;
    for _ in 0..100 {
        let block = vec![0.5f32; 480];
        total_in += block.len();
        total_out += r.process(&block).len();
    }
    assert_eq!(total_in, 48000);
    // Output k is made when 3k < total_in - 1: k = 0..=15999.
    assert_eq!(total_out, 16000);
    let expected = total_in as f64 * 16000.0 / 48000.0;
    assert!((total_out as f64 - expected).abs() <= 1.0);
}

#[test]
fn resampler_count_does_not_depend_on_block_sizes() {
    let mut a = Resampler::<u32>::new(44100, 16000).unwrap();
    let mut b = Resampler::<u32>::new(44100, 16000).unwrap();
    let input: Vec<u32> = (0..10_000u32).collect();
    let whole = a.process(&input).len();
    let mut pieces = 0usize;
    for chunk in input.chunks(37) {
        pieces += b.process(&chunk.to_vec()).len();
    }
    assert_eq!(whole, pieces);
    // ceil(9999 * 16000 / 44100) = 3628
    assert_eq!(whole, 3628);
}

#[test]
fn resampler_taps_bracket_the_read_position() {
    // Upsampling 2 -> 3: output k sits at input position 2k/3.
    let mut r = Resampler::<u32>::new(2, 3).unwrap();
    let taps = r.process(&vec![10, 20, 30]);
    let got: Vec<(u32, u32, u32)> = taps.iter().map(|t| (t.left, t.right, t.offset)).collect();
    assert_eq!(got, vec![(10, 20, 0), (10, 20, 2), (20, 30, 1)]);
    let more = r.process(&vec![40]);
    let got: Vec<(u32, u32, u32)> = more.iter().map(|t| (t.left, t.right, t.offset)).collect();
    assert_eq!(got, vec![(30, 40, 0), (30, 40, 2)]);
}

#[test]
fn resampler_interpolates_linearly() {
    let mut r = Resampler::<f32>::new(2, 3).unwrap();
    let taps = r.process(&vec![0.0, 3.0, 6.0]);
    let out = interpolate(&taps, 3);
    assert_eq!(out.len(), 3);
    assert!((out[0] - 0.0).abs() < 1e-6);
    assert!((out[1] - 2.0).abs() < 1e-6);
    assert!((out[2] - 4.0).abs() < 1e-6);
}

#[test]
fn resampler_short_block_may_yield_nothing() {
    let mut r = Resampler::<f32>::new(48000, 16000).unwrap();
    assert!(r.process(&vec![0.1]).is_empty());
    assert!(r.process(&Vec::new()).is_empty());
}

#[test]
fn capture_sends_nothing_while_idle() {
    let mut s = CaptureState::<f32>::standard(16000).unwrap();
    let sends = run_block(&mut s, &vec![0.25f32; 1600], false);
    assert!(sends.is_empty());
    assert!(!s.was_recording());
    assert_eq!(s.snapshot().len(), 1599);
}

#[test]
fn preroll_flush_holds_full_buffer_after_long_idle() {
    let mut s = CaptureState::<f32>::standard(16000).unwrap();
    assert_eq!(s.capacity(), 48000);
    assert_eq!(RING_BUFFER_SIZE, SAMPLE_RATE as usize * 3);
    // Five seconds of idle audio in 10 ms blocks.
    for _ in 0..500 {
        assert!(run_block(&mut s, &vec![0.01f32; 160], false).is_empty());
    }
    let block = vec![0.5f32; 160];
    let sends = run_block(&mut s, &block, true);
    assert_eq!(sends.len(), 2);
    assert_eq!(sends[0].len(), 48000);
    assert_eq!(sends[1].len(), 160);
    assert!(s.was_recording());
}

#[test]
fn rewind_chunk_is_the_buffer_at_the_edge() {
    let mut s = CaptureState::<u32>::new(1, 1, 5).unwrap();
    // Equal rates: each sample after the first yields one output.
    let taps = s.resample(&(0..8u32).collect());
    let fresh: Vec<u32> = taps.iter().map(|t| t.left).collect();
    assert!(s.push_block(fresh, false).is_empty());
    let before = s.snapshot();
    assert_eq!(before, vec![2, 3, 4, 5, 6]);
    let sends = s.push_block(vec![100, 101], true);
    assert_eq!(sends.len(), 2);
    // Pre-roll history only: the buffer as it was before this block.
    assert_eq!(sends[0], before);
    assert_eq!(sends[1], vec![100, 101]);
    // The two chunks together are the history followed by the new block, once.
    assert_eq!(sends.concat(), vec![2, 3, 4, 5, 6, 100, 101]);
    assert_eq!(s.snapshot(), vec![4, 5, 6, 100, 101]);
    // Still recording: only the fresh samples go out.
    let sends = s.push_block(vec![102], true);
    assert_eq!(sends, vec![vec![102]]);
    // Recording stops: nothing more is sent.
    assert!(s.push_block(vec![103], false).is_empty());
}

#[test]
fn empty_block_leaves_the_edge_pending() {
    let mut s = CaptureState::<u32>::new(1, 1, 4).unwrap();
    assert!(s.push_block(vec![1, 2], false).is_empty());
    assert!(s.push_block(Vec::new(), true).is_empty());
    assert!(!s.was_recording());
    let sends = s.push_block(vec![3], true);
    assert_eq!(sends, vec![vec![1, 2], vec![3]]);
}

#[test]
fn rewind_from_fresh_state_sends_empty_history() {
    let mut s = CaptureState::<u32>::new(1, 1, 4).unwrap();
    let sends = s.push_block(vec![7], true);
    assert_eq!(sends, vec![Vec::<u32>::new(), vec![7]]);
    assert_eq!(s.snapshot(), vec![7]);
}

#[test]
fn downsampling_with_whole_blocks_keeps_output_continuous() {
    // 48 kHz -> 16 kHz in 480-frame blocks: the read position lands on a block
    // boundary every call; the output must keep following the input exactly.
    let mut r = Resampler::<u32>::new(48000, 16000).unwrap();
    let mut lefts = Vec::new();
    for b in 0..20u32 {
        let block: Vec<u32> = (b * 480..(b + 1) * 480).collect();
        lefts.extend(r.process(&block).iter().map(|t| t.left));
    }
    let expected: Vec<u32> = (0..lefts.len() as u32).map(|k| 3 * k).collect();
    assert_eq!(lefts, expected);
    assert_eq!(lefts.len(), 3200);
}

#[test]
fn capture_rejects_zero_rate() {
    assert!(CaptureState::<f32>::standard(0).is_none());
}
