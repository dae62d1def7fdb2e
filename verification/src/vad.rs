//! Voice-activity detection: the frame-by-frame state machine that turns a
//! stream of audio frames, each judged speech or not, into utterances.
//!
//! The machine is generic over the sample type: whether a frame is speech
//! (an energy measure against an adaptive noise floor) is decided by the
//! caller, who also keeps the noise floor and the per-speaker energies up to
//! date as each step reports.
use vstd::prelude::*;

verus! {

/// Samples per second.
pub const SAMPLE_RATE: usize = 16000;

/// An utterance is cut once it reaches thirty seconds.
pub const MAX_UTTERANCE_SAMPLES: usize = 480000;

/// Utterances shorter than half a second are dropped.
pub const MIN_UTTERANCE_SAMPLES: usize = 8000;

/// One frame is 20 ms.
pub const VAD_FRAME_SIZE: usize = 320;

/// 500 ms of silence, in frames, ends an utterance.
pub const SILENCE_FRAMES: usize = 25;

/// Frames of speech needed among the first window to confirm speech.
pub const MIN_SPEECH_FRAMES: usize = 3;

/// Frames judged before speech is confirmed or dismissed.
pub const SPEECH_WINDOW_FRAMES: usize = 5;

/// Audio kept from before speech starts (300 ms).
pub const PRE_SPEECH_SAMPLES: usize = 4800;

/// How many frames a chunk of `len` samples is cut into: whole frames from
/// the start, and the piece left over when it holds at least half a frame.
pub open spec fn frame_count(len: nat) -> nat {
    len / (VAD_FRAME_SIZE as nat) + if len % (VAD_FRAME_SIZE as nat) >= VAD_FRAME_SIZE / 2 {
        1nat
    } else {
        0nat
    }
}

/// The start and end of the `k`-th frame of a chunk of `len` samples.
pub open spec fn frame_bounds(len: nat, k: int) -> (int, int) {
    let start = k * VAD_FRAME_SIZE;
    (start, if start + VAD_FRAME_SIZE <= len {
        start + VAD_FRAME_SIZE
    } else {
        len as int
    })
}

/// Cuts a chunk of `len` samples into frames, given as start and end.
pub fn frame_ranges(len: usize) -> (r: Vec<(usize, usize)>)
    ensures
        r@.len() == frame_count(len as nat),
        forall|k: int|
            0 <= k < r@.len() ==> (#[trigger] r@[k]).0 == frame_bounds(len as nat, k).0 && r@[k].1
                == frame_bounds(len as nat, k).1,
{
    let mut out: Vec<(usize, usize)> = Vec::new();
    let mut start: usize = 0;
    while len - start >= VAD_FRAME_SIZE
        invariant
            start <= len,
            start == VAD_FRAME_SIZE * out@.len(),
            forall|k: int|
                0 <= k < out@.len() ==> (#[trigger] out@[k]).0 == frame_bounds(len as nat, k).0
                    && out@[k].1 == frame_bounds(len as nat, k).1,
        decreases len - start,
    {
        out.push((start, start + VAD_FRAME_SIZE));
        start = start + VAD_FRAME_SIZE;
    }
    let n = out.len();
    assert(n == len as nat / (VAD_FRAME_SIZE as nat) && len as nat % (VAD_FRAME_SIZE as nat) == len
        - start) by (nonlinear_arith)
        requires
            start == 320 * n,
            start <= len,
            len - start < 320,
            VAD_FRAME_SIZE == 320,
    ;
    if len - start >= VAD_FRAME_SIZE / 2 {
        out.push((start, len));
    }
    out
}

#[derive(Clone, Copy, Debug, PartialEq, Eq, Structural)]
pub enum VadPhase {
    Silence,
    MaybeSpeech,
    Speech,
    MaybeSilence,
}

/// The detector's state.
pub struct VadMachine<S> {
    phase: VadPhase,
    speech_window: Vec<bool>,
    silence_frame_count: usize,
    speech_buffer: Vec<S>,
    pre_speech_buffer: Vec<S>,
}

pub struct VadView<S> {
    pub phase: VadPhase,
    pub window: Seq<bool>,
    pub silence: nat,
    pub speech: Seq<S>,
    pub pre: Seq<S>,
}

impl<S> View for VadMachine<S> {
    type V = VadView<S>;

    closed spec fn view(&self) -> VadView<S> {
        VadView {
            phase: self.phase,
            window: self.speech_window@,
            silence: self.silence_frame_count as nat,
            speech: self.speech_buffer@,
            pre: self.pre_speech_buffer@,
        }
    }
}

/// What one step reports besides the new state.
pub struct FrameOutcome<S> {
    /// A finished utterance.
    pub utterance: Option<Vec<S>>,
    /// The frame was heard in silence: the noise floor learns from it.
    pub update_noise: bool,
    /// An utterance has ended: the per-speaker energies start again.
    pub reset_speakers: bool,
}

pub open spec fn count_true(w: Seq<bool>) -> nat
    decreases w.len(),
{
    if w.len() == 0 {
        0
    } else {
        count_true(w.drop_last()) + if w.last() {
            1nat
        } else {
            0nat
        }
    }
}

/// The audio kept from before speech: the last 300 ms.
pub open spec fn keep_tail<S>(s: Seq<S>) -> Seq<S> {
    if s.len() > PRE_SPEECH_SAMPLES {
        s.skip(s.len() - PRE_SPEECH_SAMPLES)
    } else {
        s
    }
}

/// The state invariant.
pub open spec fn vad_wf<S>(m: VadView<S>) -> bool {
    &&& m.pre.len() <= PRE_SPEECH_SAMPLES
    &&& m.window.len() < SPEECH_WINDOW_FRAMES
    &&& (m.phase != VadPhase::MaybeSpeech ==> m.window.len() == 0)
    &&& (m.phase == VadPhase::MaybeSpeech ==> m.window.len() >= 1)
    &&& (m.phase == VadPhase::Silence ==> m.speech.len() == 0)
    &&& (m.phase == VadPhase::MaybeSilence ==> 1 <= m.silence < SILENCE_FRAMES)
    &&& (m.phase != VadPhase::MaybeSilence ==> m.silence == 0)
}

pub struct StepView<S> {
    pub next: VadView<S>,
    pub utterance: Option<Seq<S>>,
    pub update_noise: bool,
    pub reset_speakers: bool,
}

/// One frame's effect.
///
/// In silence the frame joins the pre-speech audio (kept to its last 300 ms)
/// and teaches the noise floor; a speech frame opens a window in which the
/// buffer starts from the pre-speech audio followed by the frame. Once the
/// window holds five frames, three or more speech frames confirm speech and
/// fewer dismiss it. During speech every frame is buffered; a non-speech
/// frame starts counting silence, and a buffer of thirty seconds is cut off
/// as an utterance. Speech resumed during the silence count carries on; 25
/// silent frames end the utterance, which is kept if it lasts half a second.
pub open spec fn step_spec<S>(m: VadView<S>, frame: Seq<S>, is_speech: bool) -> StepView<S> {
    match m.phase {
        VadPhase::Silence => {
            let pre = keep_tail(m.pre + frame);
            if is_speech {
                StepView {
                    next: VadView {
                        phase: VadPhase::MaybeSpeech,
                        window: seq![true],
                        speech: pre + frame,
                        pre,
                        ..m
                    },
                    utterance: None,
                    update_noise: true,
                    reset_speakers: false,
                }
            } else {
                StepView {
                    next: VadView { pre, ..m },
                    utterance: None,
                    update_noise: true,
                    reset_speakers: false,
                }
            }
        },
        VadPhase::MaybeSpeech => {
            let speech = m.speech + frame;
            let window = m.window.push(is_speech);
            let next = if window.len() >= SPEECH_WINDOW_FRAMES {
                if count_true(window) >= MIN_SPEECH_FRAMES {
                    VadView { phase: VadPhase::Speech, window: seq![], speech, ..m }
                } else {
                    VadView { phase: VadPhase::Silence, window: seq![], speech: seq![], ..m }
                }
            } else {
                VadView { window, speech, ..m }
            };
            StepView { next, utterance: None, update_noise: false, reset_speakers: false }
        },
        VadPhase::Speech => {
            let speech = m.speech + frame;
            let phase = if is_speech {
                VadPhase::Speech
            } else {
                VadPhase::MaybeSilence
            };
            let silence = if is_speech {
                m.silence
            } else {
                1nat
            };
            if speech.len() >= MAX_UTTERANCE_SAMPLES {
                StepView {
                    next: VadView { phase, silence, speech: seq![], ..m },
                    utterance: Some(speech),
                    update_noise: false,
                    reset_speakers: true,
                }
            } else {
                StepView {
                    next: VadView { phase, silence, speech, ..m },
                    utterance: None,
                    update_noise: false,
                    reset_speakers: false,
                }
            }
        },
        VadPhase::MaybeSilence => {
            let speech = m.speech + frame;
            if is_speech {
                StepView {
                    next: VadView { phase: VadPhase::Speech, silence: 0, speech, ..m },
                    utterance: None,
                    update_noise: false,
                    reset_speakers: false,
                }
            } else if m.silence + 1 >= SILENCE_FRAMES {
                StepView {
                    next: VadView {
                        phase: VadPhase::Silence,
                        silence: 0,
                        speech: seq![],
                        pre: seq![],
                        ..m
                    },
                    utterance: if speech.len() >= MIN_UTTERANCE_SAMPLES {
                        Some(speech)
                    } else {
                        None
                    },
                    update_noise: false,
                    reset_speakers: true,
                }
            } else {
                StepView {
                    next: VadView { silence: m.silence + 1, speech, ..m },
                    utterance: None,
                    update_noise: false,
                    reset_speakers: false,
                }
            }
        },
    }
}

pub open spec fn outcome_view<S>(o: FrameOutcome<S>) -> Option<Seq<S>> {
    match o.utterance {
        Some(u) => Some(u@),
        None => None,
    }
}

fn append_all<S: Copy>(dst: &mut Vec<S>, src: &[S])
    ensures
        final(dst)@ == old(dst)@ + src@,
{
    let mut i: usize = 0;
    while i < src.len()
        invariant
            i <= src@.len(),
            dst@ == old(dst)@ + src@.take(i as int),
        decreases src.len() - i,
    {
        dst.push(src[i]);
        i += 1;
        assert(dst@ =~= old(dst)@ + src@.take(i as int));
    }
    assert(src@.take(src@.len() as int) =~= src@);
}

fn tail_of<S: Copy>(v: &Vec<S>) -> (r: Vec<S>)
    ensures
        r@ == keep_tail(v@),
{
    let start = if v.len() > PRE_SPEECH_SAMPLES {
        v.len() - PRE_SPEECH_SAMPLES
    } else {
        0
    };
    let mut out: Vec<S> = Vec::new();
    let mut i: usize = start;
    while i < v.len()
        invariant
            start <= i <= v@.len(),
            out@ == v@.subrange(start as int, i as int),
        decreases v.len() - i,
    {
        out.push(v[i]);
        i += 1;
        assert(out@ =~= v@.subrange(start as int, i as int));
    }
    assert(v@.subrange(start as int, v@.len() as int) =~= keep_tail(v@));
    out
}

fn speech_count(w: &Vec<bool>) -> (r: usize)
    ensures
        r == count_true(w@),
{
    let mut n: usize = 0;
    let mut i: usize = 0;
    while i < w.len()
        invariant
            i <= w@.len(),
            n == count_true(w@.take(i as int)),
            n <= i,
        decreases w.len() - i,
    {
        assert(w@.take(i + 1).drop_last() =~= w@.take(i as int));
        if w[i] {
            n += 1;
        }
        i += 1;
    }
    assert(w@.take(w@.len() as int) =~= w@);
    n
}

fn take_buffer<S>(buf: &mut Vec<S>) -> (r: Vec<S>)
    ensures
        r@ == old(buf)@,
        final(buf)@ == Seq::<S>::empty(),
{
    let mut out: Vec<S> = Vec::new();
    std::mem::swap(buf, &mut out);
    out
}

impl<S: Copy> VadMachine<S> {
    /// A detector in silence with nothing buffered.
    pub fn new() -> (r: Self)
        ensures
            r@.phase == VadPhase::Silence,
            r@.window == Seq::<bool>::empty(),
            r@.silence == 0,
            r@.speech == Seq::<S>::empty(),
            r@.pre == Seq::<S>::empty(),
            vad_wf(r@),
    {
        VadMachine {
            phase: VadPhase::Silence,
            speech_window: Vec::new(),
            silence_frame_count: 0,
            speech_buffer: Vec::new(),
            pre_speech_buffer: Vec::new(),
        }
    }

    /// Feeds one frame, judged speech or not.
    pub fn step(&mut self, frame: &[S], is_speech: bool) -> (r: FrameOutcome<S>)
        requires
            vad_wf(old(self)@),
        ensures
            final(self)@ == step_spec(old(self)@, frame@, is_speech).next,
            old(self)@.phase == VadPhase::MaybeSilence && is_speech ==> final(self)@.phase
                == VadPhase::Speech && final(self)@.silence == 0 && r.utterance is None,
            outcome_view(r) == step_spec(old(self)@, frame@, is_speech).utterance,
            r.update_noise == step_spec(old(self)@, frame@, is_speech).update_noise,
            r.reset_speakers == step_spec(old(self)@, frame@, is_speech).reset_speakers,
            vad_wf(final(self)@),
    {
        match self.phase {
            VadPhase::Silence => {
                append_all(&mut self.pre_speech_buffer, frame);
                self.pre_speech_buffer = tail_of(&self.pre_speech_buffer);
                if is_speech {
                    self.phase = VadPhase::MaybeSpeech;
                    self.speech_window = Vec::new();
                    self.speech_window.push(true);
                    self.speech_buffer = Vec::new();
                    append_all(&mut self.speech_buffer, self.pre_speech_buffer.as_slice());
                    append_all(&mut self.speech_buffer, frame);
                    assert(self.speech_window@ =~= seq![true]);
                }
                FrameOutcome { utterance: None, update_noise: true, reset_speakers: false }
            },
            VadPhase::MaybeSpeech => {
                append_all(&mut self.speech_buffer, frame);
                self.speech_window.push(is_speech);
                if self.speech_window.len() >= SPEECH_WINDOW_FRAMES {
                    if speech_count(&self.speech_window) >= MIN_SPEECH_FRAMES {
                        self.phase = VadPhase::Speech;
                        self.speech_window = Vec::new();
                    } else {
                        self.phase = VadPhase::Silence;
                        self.speech_buffer = Vec::new();
                        self.speech_window = Vec::new();
                    }
                }
                FrameOutcome { utterance: None, update_noise: false, reset_speakers: false }
            },
            VadPhase::Speech => {
                append_all(&mut self.speech_buffer, frame);
                if !is_speech {
                    self.phase = VadPhase::MaybeSilence;
                    self.silence_frame_count = 1;
                }
                if self.speech_buffer.len() >= MAX_UTTERANCE_SAMPLES {
                    let audio = take_buffer(&mut self.speech_buffer);
                    FrameOutcome { utterance: Some(audio), update_noise: false, reset_speakers: true }
                } else {
                    FrameOutcome { utterance: None, update_noise: false, reset_speakers: false }
                }
            },
            VadPhase::MaybeSilence => {
                append_all(&mut self.speech_buffer, frame);
                if is_speech {
                    self.phase = VadPhase::Speech;
                    self.silence_frame_count = 0;
                    FrameOutcome { utterance: None, update_noise: false, reset_speakers: false }
                } else {
                    self.silence_frame_count += 1;
                    if self.silence_frame_count >= SILENCE_FRAMES {
                        let audio = take_buffer(&mut self.speech_buffer);
                        self.phase = VadPhase::Silence;
                        self.silence_frame_count = 0;
                        self.pre_speech_buffer = Vec::new();
                        let utterance = if audio.len() >= MIN_UTTERANCE_SAMPLES {
                            Some(audio)
                        } else {
                            None
                        };
                        FrameOutcome { utterance, update_noise: false, reset_speakers: true }
                    } else {
                        FrameOutcome { utterance: None, update_noise: false, reset_speakers: false }
                    }
                }
            },
        }
    }

    /// Speech is under way (confirmed, possibly pausing).
    pub fn is_speaking(&self) -> (r: bool)
        ensures
            r == (self@.phase == VadPhase::Speech || self@.phase == VadPhase::MaybeSilence),
    {
        match self.phase {
            VadPhase::Speech | VadPhase::MaybeSilence => true,
            _ => false,
        }
    }

    /// Samples gathered for the current utterance.
    pub fn speech_buffer_samples(&self) -> (r: usize)
        ensures
            r == self@.speech.len(),
    {
        self.speech_buffer.len()
    }

    /// The audio gathered so far, once it lasts half a second.
    pub fn peek_buffer(&self) -> (r: Option<&Vec<S>>)
        ensures
            match r {
                Some(b) => self@.speech.len() >= MIN_UTTERANCE_SAMPLES && b@ == self@.speech,
                None => self@.speech.len() < MIN_UTTERANCE_SAMPLES,
            },
    {
        if self.speech_buffer.len() >= MIN_UTTERANCE_SAMPLES {
            Some(&self.speech_buffer)
        } else {
            None
        }
    }

    /// Hands over the audio gathered so far when it lasts half a second.
    pub fn flush(&mut self) -> (r: Option<Vec<S>>)
        requires
            vad_wf(old(self)@),
        ensures
            vad_wf(final(self)@),
            match r {
                Some(u) => {
                    &&& old(self)@.speech.len() >= MIN_UTTERANCE_SAMPLES
                    &&& u@ == old(self)@.speech
                    &&& final(self)@ == (VadView { speech: Seq::<S>::empty(), ..old(self)@ })
                },
                None => {
                    &&& old(self)@.speech.len() < MIN_UTTERANCE_SAMPLES
                    &&& final(self)@ == old(self)@
                },
            },
    {
        if self.speech_buffer.len() >= MIN_UTTERANCE_SAMPLES {
            Some(take_buffer(&mut self.speech_buffer))
        } else {
            None
        }
    }
}

/// Every utterance the detector hands out lasts at least half a second.
pub proof fn lemma_utterances_long_enough<S>(m: VadView<S>, frame: Seq<S>, is_speech: bool)
    ensures
        step_spec(m, frame, is_speech).utterance matches Some(u) ==> u.len()
            >= MIN_UTTERANCE_SAMPLES,
{
}

/// The detector's invariant holds after every step: at most 300 ms of
/// pre-speech audio, no buffered speech while in silence, a decision window
/// only while speech is unconfirmed, and a silence count only while pausing.
pub proof fn lemma_step_keeps_invariant<S>(m: VadView<S>, frame: Seq<S>, is_speech: bool)
    requires
        vad_wf(m),
    ensures
        vad_wf(step_spec(m, frame, is_speech).next),
{
}

/// Whenever an utterance is handed out the speaker energies restart, and
/// they restart only while speech is under way.
pub proof fn lemma_utterance_ends_segment<S>(m: VadView<S>, frame: Seq<S>, is_speech: bool)
    ensures
        step_spec(m, frame, is_speech).utterance is Some ==> step_spec(
            m,
            frame,
            is_speech,
        ).reset_speakers,
        step_spec(m, frame, is_speech).reset_speakers ==> (m.phase == VadPhase::Speech
            || m.phase == VadPhase::MaybeSilence),
{
}

/// Frames of silence never produce an utterance while nothing is buffered.
pub proof fn lemma_quiet_stays_quiet<S>(m: VadView<S>, frame: Seq<S>)
    requires
        vad_wf(m),
        m.phase == VadPhase::Silence,
    ensures
        step_spec(m, frame, false).next.phase == VadPhase::Silence,
        step_spec(m, frame, false).utterance is None,
        step_spec(m, frame, false).next.speech.len() == 0,
{
}

/// A speech frame while pausing resumes speech and the silence count
/// starts again from nothing.
pub proof fn lemma_speech_resumes<S>(m: VadView<S>, frame: Seq<S>)
    requires
        m.phase == VadPhase::MaybeSilence,
    ensures
        step_spec(m, frame, true).next.phase == VadPhase::Speech,
        step_spec(m, frame, true).next.silence == 0,
        step_spec(m, frame, true).utterance is None,
{
}

/// The state after feeding a run of frames, each with its verdict.
pub open spec fn run_frames<S>(m: VadView<S>, frames: Seq<(Seq<S>, bool)>) -> VadView<S>
    decreases frames.len(),
{
    if frames.len() == 0 {
        m
    } else {
        step_spec(run_frames(m, frames.drop_last()), frames.last().0, frames.last().1).next
    }
}

/// How many frames at the end of a run were judged not speech, in a row.
pub open spec fn trailing_silence<S>(frames: Seq<(Seq<S>, bool)>) -> nat
    decreases frames.len(),
{
    if frames.len() == 0 {
        0
    } else if frames.last().1 {
        0
    } else {
        trailing_silence(frames.drop_last()) + 1
    }
}

proof fn lemma_silence_count_bounded<S>(m: VadView<S>, frames: Seq<(Seq<S>, bool)>)
    requires
        vad_wf(m),
        m.silence == 0,
    ensures
        vad_wf(run_frames(m, frames)),
        run_frames(m, frames).silence <= trailing_silence(frames),
    decreases frames.len(),
{
    if frames.len() > 0 {
        let init = frames.drop_last();
        lemma_silence_count_bounded(m, init);
        lemma_step_keeps_invariant(run_frames(m, init), frames.last().0, frames.last().1);
    }
}

/// An utterance ends on a pause only after 25 frames (500 ms) in a row were
/// judged not speech: whenever a step leaves the pausing phase for silence,
/// the last 25 frames fed, that one included, were all silent. Holds from
/// any detector that is not pausing, such as a new one.
pub proof fn lemma_pause_needs_consecutive_silence<S>(
    m: VadView<S>,
    frames: Seq<(Seq<S>, bool)>,
    frame: Seq<S>,
    is_speech: bool,
)
    requires
        vad_wf(m),
        m.silence == 0,
        run_frames(m, frames).phase == VadPhase::MaybeSilence,
        step_spec(run_frames(m, frames), frame, is_speech).next.phase == VadPhase::Silence,
    ensures
        trailing_silence(frames.push((frame, is_speech))) >= SILENCE_FRAMES,
{
    lemma_silence_count_bounded(m, frames);
    let all = frames.push((frame, is_speech));
    assert(all.drop_last() =~= frames);
    assert(all.last() == (frame, is_speech));
}

} // verus!
