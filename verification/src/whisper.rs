//! Speech-recognition models: which ones exist, where they come from, how a
//! recognition run is configured, and how its segments become a transcript.
use vstd::prelude::*;
use vstd::string::StringExecFns;
use crate::hallucination::{duplicate_of, hallucinated, is_duplicate_segment, is_hallucination, same_segment};
use crate::text::{
    chars_of, join_spaced, join_words, lowercase, string_of, string_views, trim, trim_chars, views,
};
use crate::vad::{MIN_UTTERANCE_SAMPLES, SAMPLE_RATE};

verus! {

/// A model the settings panel offers.
pub struct ModelInfo {
    pub size: String,
    pub label: String,
    pub downloaded: bool,
    pub file_size_mb: u64,
}

/// The models on offer: size name, label and approximate size in megabytes.
pub open spec fn catalog() -> Seq<(Seq<char>, Seq<char>, u64)> {
    seq![
        ("tiny"@, "Tiny (~75MB)"@, 75u64),
        ("base"@, "Base (~142MB)"@, 142u64),
        ("small"@, "Small (~466MB)"@, 466u64),
        ("medium"@, "Medium (~1.5GB)"@, 1500u64),
        ("large-v3-turbo"@, "Large V3 Turbo (~1.6GB)"@, 1600u64),
        ("large-v3"@, "Large V3 (~3.1GB)"@, 3100u64),
    ]
}

pub fn model_sizes() -> (r: Vec<(&'static str, &'static str, u64)>)
    ensures
        r@.len() == catalog().len(),
        forall|i: int|
            0 <= i < r@.len() ==> (#[trigger] r@[i]).0@ == catalog()[i].0 && r@[i].1@
                == catalog()[i].1 && r@[i].2 == catalog()[i].2,
{
    let r = vec![
        ("tiny", "Tiny (~75MB)", 75u64),
        ("base", "Base (~142MB)", 142u64),
        ("small", "Small (~466MB)", 466u64),
        ("medium", "Medium (~1.5GB)", 1500u64),
        ("large-v3-turbo", "Large V3 Turbo (~1.6GB)", 1600u64),
        ("large-v3", "Large V3 (~3.1GB)", 3100u64),
    ];
    r
}

/// The catalog, each entry marked as downloaded where `downloaded` says so
/// (entries beyond its end count as not downloaded).
pub fn get_available_models(downloaded: &Vec<bool>) -> (r: Vec<ModelInfo>)
    ensures
        r@.len() == catalog().len(),
        forall|i: int|
            0 <= i < r@.len() ==> {
                &&& (#[trigger] r@[i]).size@ == catalog()[i].0
                &&& r@[i].label@ == catalog()[i].1
                &&& r@[i].file_size_mb == catalog()[i].2
                &&& r@[i].downloaded == (i < downloaded@.len() && downloaded@[i])
            },
{
    let sizes = model_sizes();
    let mut out: Vec<ModelInfo> = Vec::new();
    let mut i: usize = 0;
    while i < sizes.len()
        invariant
            i <= sizes@.len(),
            sizes@.len() == catalog().len(),
            forall|k: int|
                0 <= k < sizes@.len() ==> (#[trigger] sizes@[k]).0@ == catalog()[k].0
                    && sizes@[k].1@ == catalog()[k].1 && sizes@[k].2 == catalog()[k].2,
            out@.len() == i,
            forall|k: int|
                0 <= k < i ==> {
                    &&& (#[trigger] out@[k]).size@ == catalog()[k].0
                    &&& out@[k].label@ == catalog()[k].1
                    &&& out@[k].file_size_mb == catalog()[k].2
                    &&& out@[k].downloaded == (k < downloaded@.len() && downloaded@[k])
                },
        decreases sizes.len() - i,
    {
        let (size, label, mb) = sizes[i];
        let is_downloaded = i < downloaded.len() && downloaded[i];
        out.push(
            ModelInfo {
                size: size.to_owned(),
                label: label.to_owned(),
                downloaded: is_downloaded,
                file_size_mb: mb,
            },
        );
        i += 1;
    }
    out
}

/// The file a model is stored in.
pub fn model_file_name(size: &str) -> (r: String)
    ensures
        r@ == "ggml-"@ + size@ + ".bin"@,
{
    let mut s = "ggml-".to_owned();
    s.append(size);
    s.append(".bin");
    s
}

/// Where a model is downloaded from.
pub fn model_url(size: &str) -> (r: String)
    ensures
        r@ == "https://huggingface.co/ggerganov/whisper.cpp/resolve/main/ggml-"@ + size@
            + ".bin"@,
{
    let mut s = "https://huggingface.co/ggerganov/whisper.cpp/resolve/main/ggml-".to_owned();
    s.append(size);
    s.append(".bin");
    s
}

/// Recognition threads: half the cores, at least four.
pub fn whisper_threads(cores: usize) -> (r: i32)
    ensures
        r == (if cores / 2 > 4 {
            cores / 2
        } else {
            4
        }) as i32,
{
    let half = cores / 2;
    let n = if half > 4 {
        half
    } else {
        4
    };
    n as i32
}

/// Audio shorter than half a second is not worth recognising.
pub fn long_enough(samples: usize) -> (r: bool)
    ensures
        r == (samples >= MIN_UTTERANCE_SAMPLES),
{
    samples >= MIN_UTTERANCE_SAMPLES
}

/// Audio shorter than eight seconds is recognised as a single segment.
pub fn single_segment(samples: usize) -> (r: bool)
    ensures
        r == (samples < SAMPLE_RATE * 8),
{
    samples < SAMPLE_RATE * 8
}

/// The segments worth keeping, in order: each trimmed, and dropped when
/// empty, invented by the recogniser, or a repeat of one already kept.
pub open spec fn kept_segments(segs: Seq<Seq<char>>) -> Seq<Seq<char>>
    decreases segs.len(),
{
    if segs.len() == 0 {
        seq![]
    } else {
        let kept = kept_segments(segs.drop_last());
        let t = trim(segs.last());
        if t.len() == 0 || hallucinated(t) || duplicate_of(t, kept) {
            kept
        } else {
            kept.push(t)
        }
    }
}

/// No segment kept is a repeat of one kept before it, and every segment kept
/// has text and is not one the recogniser invented.
pub proof fn lemma_kept_segments_are_distinct(segs: Seq<Seq<char>>)
    ensures
        forall|i: int, j: int|
            0 <= i < j < kept_segments(segs).len() ==> !#[trigger] same_segment(
                lowercase(kept_segments(segs)[j]),
                lowercase(kept_segments(segs)[i]),
            ),
        forall|k: int|
            0 <= k < kept_segments(segs).len() ==> (#[trigger] kept_segments(segs)[k]).len() > 0
                && !hallucinated(kept_segments(segs)[k]),
    decreases segs.len(),
{
    if segs.len() > 0 {
        let prev = kept_segments(segs.drop_last());
        lemma_kept_segments_are_distinct(segs.drop_last());
        let t = trim(segs.last());
        if !(t.len() == 0 || hallucinated(t) || duplicate_of(t, prev)) {
            let kept = prev.push(t);
            assert(kept_segments(segs) == kept);
            assert forall|i: int, j: int| 0 <= i < j < kept.len() implies !#[trigger] same_segment(
                lowercase(kept[j]),
                lowercase(kept[i]),
            ) by {
                if j < prev.len() {
                    assert(kept[j] == prev[j] && kept[i] == prev[i]);
                } else {
                    assert(kept[j] == t && kept[i] == prev[i]);
                    assert(!same_segment(lowercase(t), lowercase(prev[i])));
                }
            }
            assert forall|k: int| 0 <= k < kept.len() implies (#[trigger] kept[k]).len() > 0
                && !hallucinated(kept[k]) by {
                if k < prev.len() {
                    assert(kept[k] == prev[k]);
                }
            }
        }
    }
}

/// The transcript of a recognition run: the kept segments joined by spaces
/// and trimmed; none when that is empty.
pub open spec fn transcript_of(segs: Seq<Seq<char>>) -> Option<Seq<char>> {
    let j = trim(join_spaced(kept_segments(segs)));
    if j.len() == 0 {
        None
    } else {
        Some(j)
    }
}

pub fn transcript_from_segments(segments: &Vec<String>) -> (r: Option<String>)
    ensures
        match r {
            Some(t) => transcript_of(string_views(segments@)) == Some(t@),
            None => transcript_of(string_views(segments@)) is None,
        },
{
    let ghost segs = string_views(segments@);
    let mut kept: Vec<String> = Vec::new();
    let mut i: usize = 0;
    while i < segments.len()
        invariant
            i <= segments@.len(),
            segs == string_views(segments@),
            string_views(kept@) == kept_segments(segs.take(i as int)),
        decreases segments.len() - i,
    {
        let ghost before = string_views(kept@);
        assert(segs.take(i + 1).drop_last() =~= segs.take(i as int));
        assert(segs.take(i + 1).last() == segments@[i as int]@);
        let cs = chars_of(segments[i].as_str());
        let trimmed = string_of(&trim_chars(&cs));
        if !trimmed.as_str().is_empty() && !is_hallucination(trimmed.as_str())
            && !is_duplicate_segment(trimmed.as_str(), kept.as_slice()) {
            kept.push(trimmed);
            assert(string_views(kept@) =~= before.push(trim(segments@[i as int]@)));
        }
        i += 1;
    }
    assert(segs.take(segments@.len() as int) =~= segs);
    let mut words: Vec<Vec<char>> = Vec::new();
    let mut k: usize = 0;
    while k < kept.len()
        invariant
            k <= kept@.len(),
            views(words@) == string_views(kept@).take(k as int),
        decreases kept.len() - k,
    {
        let w = chars_of(kept[k].as_str());
        let ghost before = views(words@);
        let ghost wv = w@;
        assert(wv == string_views(kept@)[k as int]);
        words.push(w);
        assert(views(words@) =~= before.push(wv));
        k += 1;
        assert(string_views(kept@).take(k as int) =~= string_views(kept@).take(k - 1).push(wv));
    }
    assert(string_views(kept@).take(kept@.len() as int) =~= string_views(kept@));
    let joined = join_words(&words, 0, words.len());
    assert(views(words@).subrange(0, words@.len() as int) =~= views(words@));
    let result = trim_chars(&joined);
    if result.len() == 0 {
        None
    } else {
        Some(string_of(&result))
    }
}

} // verus!
