use vibeflow::transcribe::{
    backend_text, missing_model_notice, unreadable_model_notice, Emission, LoopAction, LoopEvent, Phase, TranscriptionSession,
    MAX_SESSION_SAMPLES, MIN_PARTIAL_SAMPLES, PARTIAL_INTERVAL_MS,
};
use vibeflow::transcript::{AppStatus, SensitiveTranscript, WhisperModel};

fn chunk(n: usize) -> LoopEvent<f32> {
    LoopEvent::Chunk(vec![0.1f32; n])
}

#[test]
fn first_chunk_starts_accumulating() {
    let mut s = TranscriptionSession::<f32>::new(0);
    assert_eq!(s.phase(), Phase::Idle);
    assert_eq!(s.on_event(chunk(1600), 100), LoopAction::Wait);
    assert_eq!(s.phase(), Phase::Accumulating);
    assert_eq!(s.samples().len(), 1600);
}

#[test]
fn repeated_timeouts_on_empty_buffer_only_wait() {
    let mut s = TranscriptionSession::<f32>::new(0);
    for t in 0..50u64 {
        assert_eq!(s.on_event(LoopEvent::Timeout, t * 200), LoopAction::Wait);
        assert_eq!(s.phase(), Phase::Idle);
        assert!(s.samples().is_empty());
    }
}

#[test]
fn timeout_with_samples_finalizes() {
    let mut s = TranscriptionSession::<f32>::new(0);
    s.on_event(chunk(800), 50);
    assert_eq!(s.on_event(LoopEvent::Timeout, 250), LoopAction::Finalize);
    assert_eq!(s.phase(), Phase::Finalizing);
    // Until the final result is in, every event asks for it again; audio
    // arriving meanwhile is kept.
    assert_eq!(s.on_event(chunk(10), 300), LoopAction::Finalize);
    assert_eq!(s.samples().len(), 810);
    assert_eq!(s.on_event(LoopEvent::Timeout, 500), LoopAction::Finalize);
}

#[test]
fn partial_needs_enough_samples_and_time() {
    let mut s = TranscriptionSession::<f32>::new(1000);
    // Enough samples, too early.
    assert_eq!(s.on_event(chunk(MIN_PARTIAL_SAMPLES + 1), 1500), LoopAction::Wait);
    // Interval elapsed.
    assert_eq!(s.on_event(chunk(100), 1000 + PARTIAL_INTERVAL_MS), LoopAction::Partial);
    let e = s.on_partial("hello".to_string(), 1700);
    match e {
        Emission::Partial(t) => assert_eq!(t, "hello"),
        Emission::Final(_) => panic!("expected ghost text"),
    }
    // The buffer is kept, and the clock restarts from the partial.
    assert_eq!(s.samples().len(), MIN_PARTIAL_SAMPLES + 101);
    assert_eq!(s.on_event(chunk(100), 2000), LoopAction::Wait);
    assert_eq!(s.on_event(chunk(100), 2300), LoopAction::Partial);
}

#[test]
fn partial_not_made_at_exactly_minimum_samples() {
    let mut s = TranscriptionSession::<f32>::new(0);
    assert_eq!(s.on_event(chunk(MIN_PARTIAL_SAMPLES), 10_000), LoopAction::Wait);
    assert_eq!(s.on_event(chunk(1), 10_000), LoopAction::Partial);
}

#[test]
fn buffer_cap_forces_finalization_without_silence() {
    let mut s = TranscriptionSession::<f32>::new(0);
    let mut t = 0u64;
    let mut last = LoopAction::Wait;
    let mut received = 0usize;
    while received < 480_000 {
        t += 10;
        last = s.on_event(chunk(1600), t);
        received += 1600;
        if last == LoopAction::Partial {
            s.on_partial(String::new(), t);
        }
        if received < 480_000 {
            assert_ne!(last, LoopAction::Finalize);
            assert_ne!(last, LoopAction::PartialThenFinalize);
        }
    }
    assert_eq!(MAX_SESSION_SAMPLES, 480_000);
    assert!(last == LoopAction::Finalize || last == LoopAction::PartialThenFinalize);
    assert_eq!(s.samples().len(), 480_000);
    assert_eq!(s.phase(), Phase::Finalizing);
}

#[test]
fn cap_reached_while_partial_due_gives_partial_then_finalize() {
    let mut s = TranscriptionSession::<f32>::new(0);
    assert_eq!(s.on_event(chunk(479_999), 100), LoopAction::Wait);
    assert_eq!(s.on_event(chunk(1), 700), LoopAction::PartialThenFinalize);
    assert_eq!(s.phase(), Phase::Finalizing);
    match s.on_partial("almost".to_string(), 800) {
        Emission::Partial(t) => assert_eq!(t, "almost"),
        Emission::Final(_) => panic!("expected ghost text"),
    }
    assert_eq!(s.phase(), Phase::Finalizing);
    let samples = s.take_samples();
    assert_eq!(samples.len(), 480_000);
    let out = s.on_final("all of it ".to_string(), 900);
    match &out[1] {
        Emission::Final(t) => assert_eq!(t.as_str(), "all of it"),
        Emission::Partial(_) => panic!("expected the final transcript"),
    }
}

#[test]
fn cap_reached_without_due_partial_finalizes() {
    let mut s = TranscriptionSession::<f32>::new(0);
    assert_eq!(s.on_event(chunk(480_000), 100), LoopAction::Finalize);
}

#[test]
fn backend_text_joins_segments_or_is_empty_on_failure() {
    let segs = vec![" Hello".to_string(), " world.".to_string()];
    assert_eq!(backend_text(true, &segs), " Hello world.");
    assert_eq!(backend_text(false, &segs), "");
    assert_eq!(backend_text(true, &Vec::new()), "");
}

#[test]
fn unreadable_model_notice_names_the_file() {
    assert_eq!(
        unreadable_model_notice("m.bin").as_str(),
        "Error: AI model could not be loaded. Please download m.bin again in settings."
    );
}

#[test]
fn close_with_short_buffer_still_finalizes_once() {
    let mut s = TranscriptionSession::<f32>::new(0);
    let mut partials = 0;
    for i in 0..12u64 {
        if s.on_event(chunk(1000), 10 * i) == LoopAction::Partial {
            partials += 1;
        }
    }
    assert_eq!(partials, 0);
    assert_eq!(s.on_event(LoopEvent::Closed, 130), LoopAction::Finalize);
    let samples = s.take_samples();
    assert_eq!(samples.len(), 12_000);
    let out = s.on_final(" short ".to_string(), 140);
    assert_eq!(out.len(), 2);
    match &out[1] {
        Emission::Final(t) => assert_eq!(t.as_str(), "short"),
        Emission::Partial(_) => panic!("expected the final transcript"),
    }
    assert_eq!(s.phase(), Phase::Idle);
    // A closed channel with nothing pending ends the loop.
    assert_eq!(s.on_event(LoopEvent::Closed, 150), LoopAction::Stop);
}

#[test]
fn finalization_clears_ghost_text_then_gives_transcript() {
    let mut s = TranscriptionSession::<f32>::new(0);
    s.on_event(chunk(5000), 700);
    s.on_partial("hel".to_string(), 700);
    assert_eq!(s.on_event(LoopEvent::Timeout, 900), LoopAction::Finalize);
    let out = s.on_final("  hello world \n".to_string(), 1000);
    assert_eq!(out.len(), 2);
    match &out[0] {
        Emission::Partial(t) => assert_eq!(t, ""),
        Emission::Final(_) => panic!("expected the ghost text to be cleared first"),
    }
    match &out[1] {
        Emission::Final(t) => assert_eq!(t.as_str(), "hello world"),
        Emission::Partial(_) => panic!("expected the final transcript"),
    }
    // The session is restartable.
    assert_eq!(s.phase(), Phase::Idle);
    assert!(s.samples().is_empty());
    assert_eq!(s.on_event(LoopEvent::Timeout, 1200), LoopAction::Wait);
}

#[test]
fn empty_backend_result_gives_empty_transcript() {
    let mut s = TranscriptionSession::<f32>::new(0);
    s.on_event(chunk(10), 1);
    s.on_event(LoopEvent::Timeout, 201);
    let out = s.on_final(String::new(), 202);
    match &out[1] {
        Emission::Final(t) => assert_eq!(t.as_str(), ""),
        Emission::Partial(_) => panic!("expected the final transcript"),
    }
}

#[test]
fn missing_model_notice_names_the_file() {
    let t = missing_model_notice("ggml-base.en.bin");
    assert_eq!(
        t.as_str(),
        "Error: AI model not found. Please download ggml-base.en.bin in settings."
    );
}

#[test]
fn transcript_scrub_empties_text() {
    let mut t = SensitiveTranscript::new("secret words".to_string());
    assert_eq!(t.as_str(), "secret words");
    t.scrub();
    assert_eq!(t.as_str(), "");
}

#[test]
fn model_handle_and_status() {
    let _m = WhisperModel::new();
    assert_ne!(AppStatus::Ready, AppStatus::Recording);
    assert_eq!(AppStatus::Processing, AppStatus::Processing);
}
