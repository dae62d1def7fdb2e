use phantom::vad::{frame_ranges, VadMachine, MAX_UTTERANCE_SAMPLES, MIN_UTTERANCE_SAMPLES, VAD_FRAME_SIZE};

fn frame(v: i32) -> Vec<i32> {
    vec![v; VAD_FRAME_SIZE]
}

#[test]
fn silence_produces_nothing() {
    let mut m: VadMachine<i32> = VadMachine::new();
    for _ in 0..100 {
        let out = m.step(&frame(0), false);
        assert!(out.utterance.is_none());
        assert!(out.update_noise);
    }
    assert!(!m.is_speaking());
    assert_eq!(m.speech_buffer_samples(), 0);
    assert!(m.flush().is_none());
}

#[test]
fn short_blip_is_dismissed() {
    let mut m: VadMachine<i32> = VadMachine::new();
    m.step(&frame(1), true);
    for _ in 0..4 {
        m.step(&frame(0), false);
    }
    assert!(!m.is_speaking());
    assert_eq!(m.speech_buffer_samples(), 0);
}

#[test]
fn speech_then_silence_gives_one_utterance() {
    let mut m: VadMachine<i32> = VadMachine::new();
    // 15 silent frames fill the pre-speech buffer to 300 ms
    for _ in 0..15 {
        m.step(&frame(0), false);
    }
    let mut utterances = Vec::new();
    for _ in 0..40 {
        let out = m.step(&frame(1), true);
        assert!(!out.update_noise || utterances.is_empty());
        if let Some(u) = out.utterance {
            utterances.push(u);
        }
    }
    assert!(m.is_speaking());
    let mut reset = false;
    for _ in 0..25 {
        let out = m.step(&frame(0), false);
        reset |= out.reset_speakers;
        if let Some(u) = out.utterance {
            utterances.push(u);
        }
    }
    assert!(reset);
    assert!(!m.is_speaking());
    assert_eq!(utterances.len(), 1);
    let u = &utterances[0];
    assert!(u.len() >= MIN_UTTERANCE_SAMPLES);
    // pre-speech audio (4800 samples incl. the first speech frame), that frame again,
    // 39 more speech frames, then 25 silent frames
    assert_eq!(u.len(), 4800 + VAD_FRAME_SIZE + 39 * VAD_FRAME_SIZE + 25 * VAD_FRAME_SIZE);
}

#[test]
fn brief_pause_does_not_end_speech() {
    let mut m: VadMachine<i32> = VadMachine::new();
    for _ in 0..5 {
        m.step(&frame(1), true);
    }
    assert!(m.is_speaking());
    for _ in 0..10 {
        assert!(m.step(&frame(0), false).utterance.is_none());
    }
    assert!(m.is_speaking());
    m.step(&frame(1), true);
    assert!(m.is_speaking());
}

#[test]
fn long_speech_is_cut_at_thirty_seconds() {
    let mut m: VadMachine<i32> = VadMachine::new();
    let mut cut = None;
    for _ in 0..2000 {
        if let Some(u) = m.step(&frame(1), true).utterance {
            cut = Some(u);
            break;
        }
    }
    let u = cut.expect("a cut");
    assert!(u.len() >= MAX_UTTERANCE_SAMPLES);
    assert!(m.is_speaking());
    assert_eq!(m.speech_buffer_samples(), 0);
}

#[test]
fn flush_hands_over_long_enough_audio() {
    let mut m: VadMachine<i32> = VadMachine::new();
    for _ in 0..30 {
        m.step(&frame(1), true);
    }
    assert!(m.peek_buffer().is_some());
    let n = m.speech_buffer_samples();
    let u = m.flush().unwrap();
    assert_eq!(u.len(), n);
    assert_eq!(m.speech_buffer_samples(), 0);
    assert!(m.peek_buffer().is_none());
}

#[test]
fn chunks_are_cut_into_frames() {
    assert_eq!(frame_ranges(0), vec![]);
    assert_eq!(frame_ranges(159), vec![]);
    assert_eq!(frame_ranges(160), vec![(0, 160)]);
    assert_eq!(frame_ranges(640), vec![(0, 320), (320, 640)]);
    assert_eq!(frame_ranges(799), vec![(0, 320), (320, 640)]);
    assert_eq!(frame_ranges(800), vec![(0, 320), (320, 640), (640, 800)]);
}
