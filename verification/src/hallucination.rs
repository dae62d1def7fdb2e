//! Filters for speech-recognition output: phrases that the recogniser tends
//! to invent on silence or noise, and segments that repeat earlier ones.
use vstd::prelude::*;
use vstd::string::StrSliceExecFns;
use crate::text::{
    all_ascii, all_white, is_ascii_char, white_space, alphabetic, alphanumeric, ascii_lower, ascii_upper, byte_len, char_is_alphabetic, char_is_alphanumeric, chars_of,
    contains, contains_chars, count_matches, eq_chars, fit_prefix, fit_prefix_exec, join_spaced,
    join_words, lowercase, match_count, split_whitespace, split_ws, string_of, string_views,
    text_views, to_lowercase, trim, trim_chars, views, lemma_trim_ignores_padding,
};

verus! {

/// What `str::len` reports for a text: the byte length of its UTF-8 encoding.
pub open spec fn str_len(s: Seq<char>) -> nat {
    (byte_len(s) as usize) as nat
}

/// Whole utterances that are taken as invented when they are all there is.
pub open spec fn exact_phrases() -> Seq<&'static str> {
    seq![
        "thank you", "thank you for watching", "thanks for watching", "thank you so much",
        "thanks for listening", "subscribe", "like and subscribe", "please subscribe",
        "see you next time", "see you in the next video", "see you later", "bye bye", "bye",
        "goodbye", "good night", "the end", "you", "so", "oh", "hmm", "um", "uh", "ah", "huh",
        "what", "what?", "why", "how", "yes", "no", "ok", "okay", "music", "applause",
        "silence", "laughter", "obrigado", "obrigada", "tchau", "valeu",
        "legendas pela comunidade", "sim", "não", "tá", "né", "bom", "bem", "então",
    ]
}

/// Fragments that mark a text as invented wherever they occur in it.
pub open spec fn marker_fragments() -> Seq<&'static str> {
    seq![
        "subtitles by", "amara.org", "www.", "http", "translated by", "captions by",
        "copyright", "all rights reserved", "please like", "don't forget to", "hit the bell",
        "follow me on", "check out",
    ]
}

/// Short questions that are taken as invented when they are all there is.
pub open spec fn question_phrases() -> Seq<&'static str> {
    seq![
        "what's the reason", "what is the reason", "what do you think", "what do you mean",
        "what is this", "what is that", "what are you doing", "what happened", "how are you",
        "how do you do", "who are you", "who is this", "where are you", "where is this",
        "why is that", "why not", "is that so", "is it", "is that right", "do you know",
        "did you know", "can you", "could you", "really", "right",
    ]
}

pub fn exact_phrase_list() -> (v: Vec<&'static str>)
    ensures
        v@ == exact_phrases(),
{
    let v = vec![
        "thank you", "thank you for watching", "thanks for watching", "thank you so much",
        "thanks for listening", "subscribe", "like and subscribe", "please subscribe",
        "see you next time", "see you in the next video", "see you later", "bye bye", "bye",
        "goodbye", "good night", "the end", "you", "so", "oh", "hmm", "um", "uh", "ah", "huh",
        "what", "what?", "why", "how", "yes", "no", "ok", "okay", "music", "applause",
        "silence", "laughter", "obrigado", "obrigada", "tchau", "valeu",
        "legendas pela comunidade", "sim", "não", "tá", "né", "bom", "bem", "então",
    ];
    assert(v@ =~= exact_phrases());
    v
}

pub fn marker_fragment_list() -> (v: Vec<&'static str>)
    ensures
        v@ == marker_fragments(),
{
    let v = vec![
        "subtitles by", "amara.org", "www.", "http", "translated by", "captions by",
        "copyright", "all rights reserved", "please like", "don't forget to", "hit the bell",
        "follow me on", "check out",
    ];
    assert(v@ =~= marker_fragments());
    v
}

pub fn question_phrase_list() -> (v: Vec<&'static str>)
    ensures
        v@ == question_phrases(),
{
    let v = vec![
        "what's the reason", "what is the reason", "what do you think", "what do you mean",
        "what is this", "what is that", "what are you doing", "what happened", "how are you",
        "how do you do", "who are you", "who is this", "where are you", "where is this",
        "why is that", "why not", "is that so", "is it", "is that right", "do you know",
        "did you know", "can you", "could you", "really", "right",
    ];
    assert(v@ =~= question_phrases());
    v
}

/// Whether `t` equals one of the texts in `list`.
pub fn in_list(t: &Vec<char>, list: &Vec<&str>) -> (r: bool)
    ensures
        r == text_views(list@).contains(t@),
{
    let mut i: usize = 0;
    while i < list.len()
        invariant
            i <= list@.len(),
            forall|k: int| 0 <= k < i ==> list@[k]@ != t@,
        decreases list.len() - i,
    {
        let p = chars_of(list[i]);
        if eq_chars(t, &p) {
            assert(text_views(list@)[i as int] == t@);
            return true;
        }
        i += 1;
    }
    assert forall|k: int| 0 <= k < text_views(list@).len() implies text_views(list@)[k] != t@ by {
        assert(list@[k]@ != t@);
    }
    false
}

/// Whether one of the texts in `list` occurs inside `t`.
pub fn any_occurs(t: &Vec<char>, list: &Vec<&str>) -> (r: bool)
    ensures
        r == (exists|k: int| 0 <= k < list@.len() && contains(t@, #[trigger] list@[k]@)),
{
    let mut i: usize = 0;
    while i < list.len()
        invariant
            i <= list@.len(),
            forall|k: int| 0 <= k < i ==> !contains(t@, #[trigger] list@[k]@),
        decreases list.len() - i,
    {
        let p = chars_of(list[i]);
        if contains_chars(t, &p) {
            return true;
        }
        i += 1;
    }
    false
}

/// `n * 2 / 3` computed without an intermediate that could overflow.
pub fn two_thirds(n: usize) -> (r: usize)
    ensures
        r == n * 2 / 3,
{
    let q = n / 3;
    let m = n % 3;
    proof {
        assert(n == 3 * q + m) by (nonlinear_arith)
            requires
                q == n / 3,
                m == n % 3,
        ;
        assert(n * 2 / 3 == 2 * q + m * 2 / 3) by (nonlinear_arith)
            requires
                n == 3 * q + m,
                0 <= m < 3,
        ;
    }
    2 * q + m * 2 / 3
}

pub open spec fn count_word(ws: Seq<Seq<char>>, w: Seq<char>) -> nat
    decreases ws.len(),
{
    if ws.len() == 0 {
        0
    } else {
        count_word(ws.drop_last(), w) + if ws.last() == w {
            1nat
        } else {
            0nat
        }
    }
}

/// One word that makes up two thirds or more of three or more words.
pub open spec fn repeated_word(words: Seq<Seq<char>>) -> bool {
    words.len() >= 3 && count_word(words, words[0]) >= words.len() * 2 / 3
}

/// The `n`-word group starting at word `start` occurs twice or more in `t`.
pub open spec fn ngram_repeats_at(t: Seq<char>, words: Seq<Seq<char>>, n: int, start: int) -> bool {
    match_count(t, join_spaced(words.subrange(start, start + n))) >= 2
}

/// A group of 2, 3 or 4 consecutive words recurs in the text.
pub open spec fn ngram_loop(t: Seq<char>, words: Seq<Seq<char>>) -> bool {
    words.len() >= 4 && exists|n: int, start: int|
        2 <= n <= 4 && words.len() >= n * 2 && 0 <= start < words.len() - n
            && #[trigger] ngram_repeats_at(t, words, n, start)
}

pub open spec fn alpha_count(t: Seq<char>) -> nat
    decreases t.len(),
{
    if t.len() == 0 {
        0
    } else {
        alpha_count(t.drop_last()) + if alphabetic(t.last()) {
            1nat
        } else {
            0nat
        }
    }
}

/// Alphabetic characters beyond Latin Extended-B.
pub open spec fn non_latin_count(t: Seq<char>) -> nat
    decreases t.len(),
{
    if t.len() == 0 {
        0
    } else {
        non_latin_count(t.drop_last()) + if alphabetic(t.last()) && (t.last() as u32) > 0x024F {
            1nat
        } else {
            0nat
        }
    }
}

/// Mostly Arabic, Cyrillic, CJK or other non-Latin letters.
pub open spec fn foreign_script(t: Seq<char>) -> bool {
    alpha_count(t) > 5 && non_latin_count(t) > alpha_count(t) / 2
}

/// The verdict on a text that is already lowercased and trimmed.
pub open spec fn invented(t: Seq<char>) -> bool {
    let words = split_ws(t);
    ||| str_len(t) < 2
    ||| (forall|i: int| 0 <= i < t.len() ==> !alphanumeric(#[trigger] t[i]))
    ||| text_views(exact_phrases()).contains(t)
    ||| (exists|k: int|
        0 <= k < marker_fragments().len() && contains(t, #[trigger] marker_fragments()[k]@))
    ||| text_views(question_phrases()).contains(t)
    ||| (words.len() <= 2 && str_len(t) < 10)
    ||| repeated_word(words)
    ||| ngram_loop(t, words)
    ||| foreign_script(t)
}

/// Whether a recognised text is one the recogniser invented: judged on the
/// text lowercased and trimmed.
pub open spec fn hallucinated(text: Seq<char>) -> bool {
    invented(trim(lowercase(text)))
}

fn all_non_alphanumeric(t: &Vec<char>) -> (r: bool)
    ensures
        r == (forall|i: int| 0 <= i < t@.len() ==> !alphanumeric(#[trigger] t@[i])),
{
    let mut i: usize = 0;
    while i < t.len()
        invariant
            i <= t@.len(),
            forall|k: int| 0 <= k < i ==> !alphanumeric(#[trigger] t@[k]),
        decreases t.len() - i,
    {
        if char_is_alphanumeric(t[i]) {
            return false;
        }
        i += 1;
    }
    true
}

fn has_repeated_word(words: &Vec<Vec<char>>) -> (r: bool)
    ensures
        r == repeated_word(views(words@)),
{
    if words.len() < 3 {
        return false;
    }
    let first = &words[0];
    let mut count: usize = 0;
    let mut i: usize = 0;
    while i < words.len()
        invariant
            i <= words@.len(),
            words@.len() >= 3,
            first@ == views(words@)[0],
            count == count_word(views(words@).take(i as int), first@),
            count <= i,
        decreases words.len() - i,
    {
        assert(views(words@).take(i + 1).drop_last() =~= views(words@).take(i as int));
        if eq_chars(&words[i], first) {
            count += 1;
        }
        i += 1;
    }
    assert(views(words@).take(words@.len() as int) =~= views(words@));
    count >= two_thirds(words.len())
}

proof fn lemma_join_nonempty(ws: Seq<Seq<char>>)
    requires
        ws.len() >= 2,
    ensures
        join_spaced(ws).len() > 0,
{
}

fn ngram_repeats_for(t: &Vec<char>, words: &Vec<Vec<char>>, n: usize) -> (r: bool)
    requires
        2 <= n <= 4,
        words@.len() >= n * 2,
    ensures
        r == (exists|start: int|
            0 <= start < words@.len() - n && #[trigger] ngram_repeats_at(
                t@,
                views(words@),
                n as int,
                start,
            )),
{
    let mut start: usize = 0;
    while start < words.len() - n
        invariant
            2 <= n <= 4,
            words@.len() >= n * 2,
            start <= words@.len() - n,
            forall|s: int|
                0 <= s < start ==> !#[trigger] ngram_repeats_at(t@, views(words@), n as int, s),
        decreases words.len() - n - start,
    {
        let gram = join_words(words, start, start + n);
        proof {
            assert(views(words@).subrange(start as int, start + n).len() == n);
            lemma_join_nonempty(views(words@).subrange(start as int, start + n));
        }
        if count_matches(t, &gram) >= 2 {
            assert(ngram_repeats_at(t@, views(words@), n as int, start as int));
            return true;
        }
        start += 1;
    }
    false
}

fn has_ngram_loop(t: &Vec<char>, words: &Vec<Vec<char>>) -> (r: bool)
    ensures
        r == ngram_loop(t@, views(words@)),
{
    if words.len() < 4 {
        return false;
    }
    let ghost ws = views(words@);
    let mut n: usize = 2;
    while n <= 4
        invariant
            2 <= n <= 5,
            words@.len() >= 4,
            ws == views(words@),
            forall|m: int, s: int|
                2 <= m < n && words@.len() >= m * 2 && 0 <= s < words@.len() - m
                    ==> !#[trigger] ngram_repeats_at(t@, ws, m, s),
        decreases 5 - n,
    {
        if words.len() >= n * 2 {
            if ngram_repeats_for(t, words, n) {
                let ghost s = choose|s: int|
                    0 <= s < words@.len() - n && #[trigger] ngram_repeats_at(t@, ws, n as int, s);
                assert(ngram_repeats_at(t@, ws, n as int, s));
                return true;
            }
        }
        n += 1;
    }
    assert(!ngram_loop(t@, ws)) by {
        if ngram_loop(t@, ws) {
            let (m, s) = choose|m: int, s: int|
                2 <= m <= 4 && ws.len() >= m * 2 && 0 <= s < ws.len() - m
                    && #[trigger] ngram_repeats_at(t@, ws, m, s);
            assert(ngram_repeats_at(t@, ws, m, s));
        }
    }
    false
}

fn has_foreign_script(t: &Vec<char>) -> (r: bool)
    ensures
        r == foreign_script(t@),
{
    let mut alpha: usize = 0;
    let mut non_latin: usize = 0;
    let mut i: usize = 0;
    while i < t.len()
        invariant
            i <= t@.len(),
            alpha == alpha_count(t@.take(i as int)),
            non_latin == non_latin_count(t@.take(i as int)),
            non_latin <= alpha <= i,
        decreases t.len() - i,
    {
        assert(t@.take(i + 1).drop_last() =~= t@.take(i as int));
        let c = t[i];
        if char_is_alphabetic(c) {
            alpha += 1;
            if (c as u32) > 0x024F {
                non_latin += 1;
            }
        }
        i += 1;
    }
    assert(t@.take(t@.len() as int) =~= t@);
    alpha > 5 && non_latin > alpha / 2
}

/// The verdict on a text that is already lowercased: judged on it trimmed.
pub fn is_hallucination_lowercase(lower: &str) -> (r: bool)
    ensures
        r == invented(trim(lower@)),
{
    let all = chars_of(lower);
    let t = trim_chars(&all);
    let ts = string_of(&t);
    let tlen = ts.as_str().len();
    let ghost words_spec = split_ws(t@);
    if tlen < 2 {
        return true;
    }
    if all_non_alphanumeric(&t) {
        return true;
    }
    let exact = exact_phrase_list();
    if in_list(&t, &exact) {
        return true;
    }
    let markers = marker_fragment_list();
    if any_occurs(&t, &markers) {
        return true;
    }
    let questions = question_phrase_list();
    if in_list(&t, &questions) {
        return true;
    }
    let words = split_whitespace(&t);
    if words.len() <= 2 && tlen < 10 {
        return true;
    }
    if has_repeated_word(&words) {
        return true;
    }
    if has_ngram_loop(&t, &words) {
        return true;
    }
    has_foreign_script(&t)
}

/// Whether a recognised text is one the recogniser tends to invent on
/// silence or noise.
pub fn is_hallucination(text: &str) -> (r: bool)
    ensures
        r == hallucinated(text@),
        all_ascii(text@) ==> r == ascii_verdict(text@),
{
    let lower = to_lowercase(text);
    is_hallucination_lowercase(lower.as_str())
}

/// The verdict on a lowercased text, of any script, does not change when
/// whitespace is added around it (`is_hallucination_lowercase`).
pub proof fn lemma_lowercase_verdict_ignores_padding(
    lower: Seq<char>,
    before: Seq<char>,
    after: Seq<char>,
)
    requires
        all_white(before),
        all_white(after),
    ensures
        invented(trim(before + lower + after)) == invented(trim(lower)),
{
    lemma_trim_ignores_padding(before, lower, after);
}

/// The verdict on an ASCII text, lowercased the plain A-Z to a-z way.
pub open spec fn ascii_verdict(text: Seq<char>) -> bool {
    invented(trim(text.map_values(|c: char| ascii_lower(c))))
}

/// The verdict on an ASCII text does not change when whitespace is added
/// around it or when its letters are changed to capitals.
pub proof fn lemma_hallucination_ignores_padding_and_case(
    text: Seq<char>,
    before: Seq<char>,
    after: Seq<char>,
)
    requires
        all_ascii(text),
        all_white(before),
        all_white(after),
    ensures
        ascii_verdict(before + text + after) == ascii_verdict(text),
        ascii_verdict(text.map_values(|c: char| ascii_upper(c))) == ascii_verdict(text),
{
    let padded = before + text + after;
    let lb = before.map_values(|c: char| ascii_lower(c));
    let la = after.map_values(|c: char| ascii_lower(c));
    let lt = text.map_values(|c: char| ascii_lower(c));
    assert(lb =~= before) by {
        assert forall|i: int| 0 <= i < before.len() implies lb[i] == before[i] by {
            assert(white_space(before[i]));
        }
    }
    assert(la =~= after) by {
        assert forall|i: int| 0 <= i < after.len() implies la[i] == after[i] by {
            assert(white_space(after[i]));
        }
    }
    assert(padded.map_values(|c: char| ascii_lower(c)) =~= lb + lt + la);
    lemma_trim_ignores_padding(before, lt, after);

    let upper = text.map_values(|c: char| ascii_upper(c));
    assert(upper.map_values(|c: char| ascii_lower(c)) =~= lt) by {
        assert forall|i: int| 0 <= i < upper.len() implies #[trigger] ascii_lower(upper[i]) == ascii_lower(text[i]) by {
            let c = text[i];
            assert(is_ascii_char(c));
            if 'a' <= c && c <= 'z' {
                assert(upper[i] == ((c as u32) - 32) as char);
            }
        }
    }
}

// ---------------------------------------------------------------------------
// Repeated segments
// ---------------------------------------------------------------------------

/// `floor_char_boundary(s, index)`: the longest prefix of `s` that ends on a
/// character boundary at or before byte `index`; the whole of `s` when
/// `index` reaches its length; none when that prefix would be empty.
pub open spec fn floor_boundary(s: Seq<char>, index: int) -> Option<Seq<char>> {
    if index >= str_len(s) {
        Some(s)
    } else {
        let k = fit_prefix(s, index);
        if k == 0 {
            None
        } else {
            Some(s.take(k as int))
        }
    }
}

pub fn floor_char_boundary(s: &str, index: usize) -> (r: Option<&str>)
    ensures
        match r {
            Some(p) => floor_boundary(s@, index as int) == Some(p@),
            None => floor_boundary(s@, index as int) is None,
        },
{
    if index >= s.len() {
        return Some(s);
    }
    let cs = chars_of(s);
    let k = fit_prefix_exec(&cs, index);
    if k == 0 {
        None
    } else {
        Some(s.substring_char(0, k))
    }
}

/// The first two thirds (in bytes) of `a` occur in `b`, `a` being longer
/// than ten bytes.
pub open spec fn prefix_recurs(a: Seq<char>, b: Seq<char>) -> bool {
    match floor_boundary(a, (str_len(a) * 2 / 3) as int) {
        Some(prefix) => str_len(a) > 10 && contains(b, prefix),
        None => false,
    }
}

/// Two lowercased segments count as the same: equal, or one's leading two
/// thirds found in the other.
pub open spec fn same_segment(lower: Seq<char>, prev_lower: Seq<char>) -> bool {
    prev_lower == lower || prefix_recurs(prev_lower, lower) || prefix_recurs(lower, prev_lower)
}

/// Whether `text` repeats one of the `previous` segments, compared in
/// lowercase.
pub open spec fn duplicate_of(text: Seq<char>, previous: Seq<Seq<char>>) -> bool {
    exists|i: int|
        0 <= i < previous.len() && #[trigger] same_segment(
            lowercase(text),
            lowercase(previous[i]),
        )
}

/// Whether two segments count as the same does not depend on their order,
/// and a segment always counts as the same as itself.
pub proof fn lemma_same_segment_symmetric(a: Seq<char>, b: Seq<char>)
    ensures
        same_segment(a, b) == same_segment(b, a),
        same_segment(a, a),
{
}

/// A text repeats any list of segments that holds it.
pub proof fn lemma_listed_text_is_duplicate(text: Seq<char>, previous: Seq<Seq<char>>, i: int)
    requires
        0 <= i < previous.len(),
        previous[i] == text,
    ensures
        duplicate_of(text, previous),
{
    assert(same_segment(lowercase(text), lowercase(previous[i])));
}

fn prefix_recurs_exec(a: &String, b: &Vec<char>) -> (r: bool)
    ensures
        r == prefix_recurs(a@, b@),
{
    let alen = a.as_str().len();
    match floor_char_boundary(a.as_str(), two_thirds(alen)) {
        Some(prefix) => {
            let pc = chars_of(prefix);
            alen > 10 && contains_chars(b, &pc)
        },
        None => false,
    }
}

/// Whether two already lowercased segments count as the same.
pub fn same_segment_lowercase(lower: &String, prev_lower: &String) -> (r: bool)
    ensures
        r == same_segment(lower@, prev_lower@),
{
    let lc = chars_of(lower.as_str());
    let pc = chars_of(prev_lower.as_str());
    if eq_chars(&pc, &lc) {
        return true;
    }
    if prefix_recurs_exec(prev_lower, &lc) {
        return true;
    }
    prefix_recurs_exec(lower, &pc)
}

/// Whether `text` repeats one of the `previous` segments.
pub fn is_duplicate_segment(text: &str, previous: &[String]) -> (r: bool)
    ensures
        r == duplicate_of(text@, string_views(previous@)),
{
    let lower = to_lowercase(text);
    let ghost prev = string_views(previous@);
    let mut i: usize = 0;
    while i < previous.len()
        invariant
            i <= previous@.len(),
            prev == string_views(previous@),
            lower@ == lowercase(text@),
            forall|k: int|
                0 <= k < i ==> !#[trigger] same_segment(lowercase(text@), lowercase(prev[k])),
        decreases previous.len() - i,
    {
        let prev_lower = to_lowercase(previous[i].as_str());
        if same_segment_lowercase(&lower, &prev_lower) {
            assert(same_segment(lowercase(text@), lowercase(prev[i as int])));
            return true;
        }
        i += 1;
    }
    false
}

} // verus!
