//! The screen watcher's decisions: when the text on screen has changed
//! enough to be worth a request, what the two model stages are asked, and
//! how long to wait before looking again.
//!
//! The capture, the text recognition, the requests and the waiting happen
//! outside the library; each step of the cycle reports here and gets back
//! what to do next.
use vstd::prelude::*;
use vstd::string::StringExecFns;
use vstd::set_lib::lemma_set_intersect_union_lens;
use crate::gemini::{language_instruction, language_instruction_of};
use crate::state::{AppState, StateField, StateValue, StateView};
use crate::text::{
    chars_of, eq_chars, split_whitespace, split_ws, str_eq, string_of, trim, trim_chars, views,
};

verus! {

broadcast use vstd::seq_lib::seq_to_set_is_finite;

/// The model that filters and structures the text read from the screen.
pub fn flash_model() -> (r: &'static str)
    ensures
        r@ == "gemini-2.0-flash"@,
{
    "gemini-2.0-flash"
}

/// The model that answers the structured content.
pub fn pro_model() -> (r: &'static str)
    ensures
        r@ == "gemini-2.5-pro"@,
{
    "gemini-2.5-pro"
}

/// Shortest pause between two cycles, set when the screen has changed.
pub const MIN_INTERVAL_MS: u64 = 2000;

/// Longest pause between two cycles.
pub const MAX_INTERVAL_MS: u64 = 10000;

/// Pause when the watcher starts and after the models have answered.
pub const DEFAULT_INTERVAL_MS: u64 = 3000;

/// Lengthening of the pause while the screen stays the same.
pub const INTERVAL_INCREMENT_MS: u64 = 1000;

/// Lengthening of the pause after a failed request.
pub const BACKOFF_INCREMENT_MS: u64 = 2000;

pub open spec fn in_range(ms: u64) -> bool {
    MIN_INTERVAL_MS <= ms <= MAX_INTERVAL_MS
}

pub open spec fn capped(ms: int) -> u64 {
    if ms < MAX_INTERVAL_MS {
        ms as u64
    } else {
        MAX_INTERVAL_MS
    }
}

/// The pause after a cycle in which the screen did not change.
pub open spec fn idle_interval(ms: u64) -> u64 {
    capped(ms + INTERVAL_INCREMENT_MS)
}

/// The pause after a failed request.
pub open spec fn backoff_interval(ms: u64) -> u64 {
    capped(ms + BACKOFF_INCREMENT_MS)
}

pub fn next_idle_interval(ms: u64) -> (r: u64)
    ensures
        r == idle_interval(ms),
{
    if ms >= MAX_INTERVAL_MS - INTERVAL_INCREMENT_MS {
        MAX_INTERVAL_MS
    } else {
        ms + INTERVAL_INCREMENT_MS
    }
}

pub fn next_backoff_interval(ms: u64) -> (r: u64)
    ensures
        r == backoff_interval(ms),
{
    if ms >= MAX_INTERVAL_MS - BACKOFF_INCREMENT_MS {
        MAX_INTERVAL_MS
    } else {
        ms + BACKOFF_INCREMENT_MS
    }
}

/// What a step of the watcher does to the pause.
#[derive(Clone, Copy, Debug, PartialEq, Eq, Structural)]
pub enum IntervalEvent {
    /// The watcher starts.
    Started,
    /// The screen is unchanged or blank.
    Unchanged,
    /// The screen changed.
    Changed,
    /// The filtering model found nothing worth answering.
    NothingRelevant,
    /// A request failed.
    Failed,
    /// An answer was kept.
    Answered,
    /// A step that leaves the pause alone.
    Kept,
}

/// The pause after one step.
pub open spec fn next_interval(ms: u64, e: IntervalEvent) -> u64 {
    match e {
        IntervalEvent::Started => DEFAULT_INTERVAL_MS,
        IntervalEvent::Unchanged => idle_interval(ms),
        IntervalEvent::Changed => MIN_INTERVAL_MS,
        IntervalEvent::NothingRelevant => DEFAULT_INTERVAL_MS,
        IntervalEvent::Failed => backoff_interval(ms),
        IntervalEvent::Answered => DEFAULT_INTERVAL_MS,
        IntervalEvent::Kept => ms,
    }
}

/// The pause after a run of steps.
pub open spec fn interval_after(ms: u64, events: Seq<IntervalEvent>) -> u64
    decreases events.len(),
{
    if events.len() == 0 {
        ms
    } else {
        next_interval(interval_after(ms, events.drop_last()), events.last())
    }
}

/// The pause the state holds.
pub open spec fn interval_of(s: StateView) -> u64 {
    s.watcher_interval_ms as u64
}

/// Over any run of steps, whatever the screen, the recogniser and the
/// models do, a pause that starts between two and ten seconds stays there;
/// a run that begins by starting the watcher is in range from any state.
pub proof fn lemma_interval_in_range_over_a_run(ms: u64, events: Seq<IntervalEvent>)
    ensures
        in_range(ms) ==> in_range(interval_after(ms, events)),
        events.len() > 0 && events[0] == IntervalEvent::Started ==> in_range(
            interval_after(ms, events),
        ),
    decreases events.len(),
{
    if events.len() > 0 {
        lemma_interval_in_range_over_a_run(ms, events.drop_last());
        if events.len() == 1 {
        } else {
            assert(events.drop_last()[0] == events[0]);
        }
    }
}

// ---------------------------------------------------------------------------
// Word overlap
// ---------------------------------------------------------------------------

/// The distinct words of a text.
pub open spec fn word_set(s: Seq<char>) -> Set<Seq<char>> {
    split_ws(s).to_set()
}

/// Words the two texts share.
pub open spec fn shared_words(a: Seq<char>, b: Seq<char>) -> nat {
    word_set(a).intersect(word_set(b)).len()
}

/// Words found in either text.
pub open spec fn all_words(a: Seq<char>, b: Seq<char>) -> nat {
    word_set(a).union(word_set(b)).len()
}

/// The screen counts as unchanged when the word-set similarity of the two
/// texts (shared words over all words; 1 when neither has a word) is above
/// 85%.
pub open spec fn unchanged_screen(last: Seq<char>, now: Seq<char>) -> bool {
    all_words(last, now) == 0 || 20 * shared_words(last, now) > 17 * all_words(last, now)
}

/// The screen counts as unchanged exactly when the distinct words both
/// texts share are more than 85% of the distinct words of either (or
/// neither text has a word).
pub proof fn lemma_unchanged_is_jaccard_above_85(last: Seq<char>, now: Seq<char>)
    ensures
        unchanged_screen(last, now) <==> (word_set(last).union(word_set(now)).len() == 0 || 20
            * word_set(last).intersect(word_set(now)).len() > 17 * word_set(last).union(
            word_set(now),
        ).len()),
{
}

/// Whether the screen changed does not depend on which text came first.
pub proof fn lemma_unchanged_is_symmetric(a: Seq<char>, b: Seq<char>)
    ensures
        unchanged_screen(a, b) == unchanged_screen(b, a),
{
    assert(word_set(a).intersect(word_set(b)) =~= word_set(b).intersect(word_set(a)));
    assert(word_set(a).union(word_set(b)) =~= word_set(b).union(word_set(a)));
}

/// A new text that keeps every word of the last one and adds more counts as
/// unchanged only when the last text's words are more than 85% of the new
/// text's words: adding enough new words always counts as a change.
pub proof fn lemma_added_words_change_the_screen(last: Seq<char>, now: Seq<char>)
    requires
        word_set(last).subset_of(word_set(now)),
        word_set(now).len() > 0,
    ensures
        unchanged_screen(last, now) <==> 20 * word_set(last).len() > 17 * word_set(now).len(),
{
    assert(word_set(last).intersect(word_set(now)) =~= word_set(last));
    assert(word_set(last).union(word_set(now)) =~= word_set(now));
}

proof fn lemma_push_to_set<A>(s: Seq<A>, x: A)
    ensures
        s.push(x).to_set() == s.to_set().insert(x),
{
    assert forall|y: A| s.push(x).to_set().contains(y) <==> s.to_set().insert(x).contains(y) by {
        if s.push(x).contains(y) {
            let k = choose|k: int| 0 <= k < s.push(x).len() && s.push(x)[k] == y;
            if k < s.len() {
                assert(s[k] == y);
            }
        }
        if s.contains(y) {
            let k = choose|k: int| 0 <= k < s.len() && s[k] == y;
            assert(s.push(x)[k] == y);
        }
        if y == x {
            assert(s.push(x)[s.len() as int] == x);
        }
    }
    assert(s.push(x).to_set() =~= s.to_set().insert(x));
}

fn distinct_words(ws: &Vec<Vec<char>>) -> (d: Vec<Vec<char>>)
    ensures
        views(d@).no_duplicates(),
        views(d@).to_set() == views(ws@).to_set(),
{
    let mut d: Vec<Vec<char>> = Vec::new();
    let mut i: usize = 0;
    while i < ws.len()
        invariant
            i <= ws@.len(),
            views(d@).no_duplicates(),
            views(d@).to_set() == views(ws@).take(i as int).to_set(),
        decreases ws.len() - i,
    {
        let w = &ws[i];
        let mut found = false;
        let mut k: usize = 0;
        while k < d.len()
            invariant
                k <= d@.len(),
                found ==> views(d@).contains(w@),
                !found ==> forall|m: int| 0 <= m < k ==> views(d@)[m] != w@,
            decreases d.len() - k,
        {
            if eq_chars(&d[k], w) {
                found = true;
                assert(views(d@)[k as int] == w@);
            }
            k += 1;
        }
        let ghost before = views(d@);
        assert(views(ws@).take(i + 1) =~= views(ws@).take(i as int).push(w@));
        if !found {
            d.push(ws[i].clone());
            assert(views(d@) =~= before.push(w@));
            proof {
                lemma_push_to_set(before, w@);
            }
        } else {
            assert(before.to_set().insert(w@) =~= before.to_set());
        }
        proof {
            lemma_push_to_set(views(ws@).take(i as int), w@);
        }
        i += 1;
    }
    assert(views(ws@).take(ws@.len() as int) =~= views(ws@));
    d
}

fn common_words(a: &Vec<Vec<char>>, b: &Vec<Vec<char>>) -> (c: usize)
    requires
        views(a@).no_duplicates(),
    ensures
        c == views(a@).to_set().intersect(views(b@).to_set()).len(),
{
    let mut common: Vec<Vec<char>> = Vec::new();
    let mut i: usize = 0;
    while i < a.len()
        invariant
            i <= a@.len(),
            views(a@).no_duplicates(),
            views(common@).no_duplicates(),
            views(common@).to_set() == views(a@).take(i as int).to_set().intersect(
                views(b@).to_set(),
            ),
            forall|m: int|
                0 <= m < common@.len() ==> views(a@).take(i as int).contains(views(common@)[m]),
        decreases a.len() - i,
    {
        let w = &a[i];
        let mut found = false;
        let mut k: usize = 0;
        while k < b.len()
            invariant
                k <= b@.len(),
                found ==> views(b@).contains(w@),
                !found ==> forall|m: int| 0 <= m < k ==> views(b@)[m] != w@,
            decreases b.len() - k,
        {
            if eq_chars(&b[k], w) {
                found = true;
                assert(views(b@)[k as int] == w@);
            }
            k += 1;
        }
        let ghost before = views(common@);
        let ghost prefix = views(a@).take(i as int);
        assert(views(a@).take(i + 1) =~= prefix.push(w@));
        assert(!prefix.contains(w@)) by {
            if prefix.contains(w@) {
                let m = choose|m: int| 0 <= m < prefix.len() && prefix[m] == w@;
                assert(views(a@)[m] == views(a@)[i as int]);
            }
        }
        if found {
            common.push(a[i].clone());
            assert(views(common@) =~= before.push(w@));
            proof {
                lemma_push_to_set(before, w@);
                lemma_push_to_set(prefix, w@);
            }
            assert(views(common@).to_set() =~= prefix.push(w@).to_set().intersect(
                views(b@).to_set(),
            ));
        } else {
            proof {
                lemma_push_to_set(prefix, w@);
            }
            assert(before.to_set() =~= prefix.push(w@).to_set().intersect(views(b@).to_set()));
        }
        i += 1;
        assert forall|m: int|
            0 <= m < common@.len() implies views(a@).take(i as int).contains(
            views(common@)[m],
        ) by {
            if m < before.len() {
                assert(prefix.contains(before[m]));
                let j = choose|j: int| 0 <= j < prefix.len() && prefix[j] == before[m];
                assert(views(a@).take(i as int)[j] == before[m]);
            } else {
                assert(views(a@).take(i as int)[i - 1] == w@);
            }
        }
    }
    assert(views(a@).take(a@.len() as int) =~= views(a@));
    proof {
        views(common@).unique_seq_to_set();
    }
    common.len()
}

/// The distinct words of two texts: how many each has and how many they
/// share.
pub struct WordOverlap {
    pub shared: usize,
    pub left: usize,
    pub right: usize,
}

pub fn word_overlap(a: &str, b: &str) -> (r: WordOverlap)
    ensures
        r.shared == shared_words(a@, b@),
        r.left == word_set(a@).len(),
        r.right == word_set(b@).len(),
        all_words(a@, b@) == r.left + r.right - r.shared,
        r.shared <= r.left,
        r.shared <= r.right,
{
    let ac = chars_of(a);
    let bc = chars_of(b);
    let wa = split_whitespace(&ac);
    let wb = split_whitespace(&bc);
    let da = distinct_words(&wa);
    let db = distinct_words(&wb);
    let shared = common_words(&da, &db);
    proof {
        views(da@).unique_seq_to_set();
        views(db@).unique_seq_to_set();
        lemma_set_intersect_union_lens(word_set(a@), word_set(b@));
        vstd::set_lib::lemma_len_intersect(word_set(a@), word_set(b@));
        assert(word_set(a@).intersect(word_set(b@)) =~= word_set(b@).intersect(word_set(a@)));
        vstd::set_lib::lemma_len_intersect(word_set(b@), word_set(a@));
    }
    WordOverlap { shared, left: da.len(), right: db.len() }
}

/// Whether the screen text is close enough to the last one to skip the
/// models.
pub fn screen_unchanged(last: &str, now: &str) -> (r: bool)
    ensures
        r == unchanged_screen(last@, now@),
        r == (word_set(last@).union(word_set(now@)).len() == 0 || 20 * word_set(last@).intersect(
            word_set(now@),
        ).len() > 17 * word_set(last@).union(word_set(now@)).len()),
{
    let o = word_overlap(last, now);
    let all: u128 = o.left as u128 + o.right as u128 - o.shared as u128;
    all == 0 || 20 * (o.shared as u128) > 17 * all
}

/// A screen showing the same text as last time is always unchanged.
pub proof fn lemma_same_text_unchanged(s: Seq<char>)
    ensures
        unchanged_screen(s, s),
{
    assert(word_set(s).intersect(word_set(s)) =~= word_set(s));
    assert(word_set(s).union(word_set(s)) =~= word_set(s));
}

// ---------------------------------------------------------------------------
// The cycle
// ---------------------------------------------------------------------------

/// The instruction to the filtering model, followed by the text read from
/// the screen.
pub open spec fn flash_instruction() -> Seq<char> {
    "You are a screen content extractor. Given raw OCR text from a screen capture, do the following:\n1. Ignore UI elements: menus, navigation bars, toolbars, status bars, notifications, window controls, tabs, sidebars.\n2. Extract the MAIN content the user is looking at.\n3. Structure your output as:\n   - Context: (what app/site/document is being viewed, one line)\n   - Content: (the main text content)\n   - Question: (if there's a question or quiz visible, extract it with all options)\n\nIf the screen shows nothing meaningful (desktop, lock screen, empty window), reply with exactly: NO_RELEVANT_CONTENT\n\nRaw OCR text:\n"@
}

pub fn flash_prompt(ocr_text: &str) -> (r: String)
    ensures
        r@ == flash_instruction() + ocr_text@,
{
    let mut s = "You are a screen content extractor. Given raw OCR text from a screen capture, do the following:\n1. Ignore UI elements: menus, navigation bars, toolbars, status bars, notifications, window controls, tabs, sidebars.\n2. Extract the MAIN content the user is looking at.\n3. Structure your output as:\n   - Context: (what app/site/document is being viewed, one line)\n   - Content: (the main text content)\n   - Question: (if there's a question or quiz visible, extract it with all options)\n\nIf the screen shows nothing meaningful (desktop, lock screen, empty window), reply with exactly: NO_RELEVANT_CONTENT\n\nRaw OCR text:\n".to_owned();
    s.append(ocr_text);
    s
}

/// The request to the answering model: the user's prompt, the language
/// instruction and the structured content.
pub open spec fn pro_prompt_of(prompt: Seq<char>, lang: Seq<char>, content: Seq<char>) -> Seq<char> {
    prompt + language_instruction_of(lang) + "\n\nScreen content:\n"@ + content
}

pub fn pro_prompt(prompt: &str, response_language: &str, content: &str) -> (r: String)
    ensures
        r@ == pro_prompt_of(prompt@, response_language@, content@),
{
    let instruction = language_instruction(response_language);
    let mut s = prompt.to_owned();
    s.append(instruction.as_str());
    s.append("\n\nScreen content:\n");
    s.append(content);
    s
}

/// The state of a watcher that has just started.
pub open spec fn watching(s: StateView) -> StateView {
    StateView { watcher_active: true, watcher_interval_ms: DEFAULT_INTERVAL_MS as nat, last_ocr_text: seq![], ..s }
}

/// Starts the watcher unless it is running; tells whether it started.
pub fn watcher_start(state: &mut AppState) -> (started: bool)
    ensures
        interval_of(final(state)@) == next_interval(
            interval_of(old(state)@),
            if started {
                IntervalEvent::Started
            } else {
                IntervalEvent::Kept
            },
        ),
        started ==> in_range(interval_of(final(state)@)),
        in_range(interval_of(old(state)@)) ==> in_range(interval_of(final(state)@)),
        started == !old(state)@.watcher_active,
        started ==> final(state)@ == watching(old(state)@),
        !started ==> final(state)@ == old(state)@,
{
    if state.get_watcher_active() {
        return false;
    }
    state.set_watcher_active(true);
    state.set_watcher_interval_ms(DEFAULT_INTERVAL_MS);
    state.set_last_ocr_text(String::new());
    true
}

/// The state of a stopped watcher.
pub open spec fn unwatched(s: StateView) -> StateView {
    StateView { watcher_active: false, last_ocr_text: seq![], ..s }
}

/// Stops the watcher; the next cycle sees it and ends.
pub fn watcher_stop(state: &mut AppState)
    ensures
        interval_of(final(state)@) == next_interval(interval_of(old(state)@), IntervalEvent::Kept),
        in_range(interval_of(old(state)@)) ==> in_range(interval_of(final(state)@)),
        final(state)@ == unwatched(old(state)@),
{
    state.set_watcher_active(false);
    state.set_last_ocr_text(String::new());
}

/// What a cycle does with the text read from the screen.
pub enum ScreenReading {
    /// Nothing new: wait longer and look again.
    Unchanged,
    /// New content: ask the filtering model this prompt.
    Changed { flash_prompt: String },
}

/// The text read from the screen: when it is blank or close to the last
/// text, the pause grows; otherwise it becomes the last text, the pause
/// drops to the minimum and the filtering model is asked about it.
pub fn watcher_observe(state: &mut AppState, ocr_text: String) -> (r: ScreenReading)
    ensures
        interval_of(final(state)@) == next_interval(
            interval_of(old(state)@),
            match r {
                ScreenReading::Unchanged => IntervalEvent::Unchanged,
                ScreenReading::Changed { .. } => IntervalEvent::Changed,
            },
        ),
        in_range(interval_of(old(state)@)) ==> in_range(interval_of(final(state)@)),
        match r {
            ScreenReading::Unchanged => {
                &&& (trim(ocr_text@).len() == 0 || unchanged_screen(
                    old(state)@.last_ocr_text,
                    ocr_text@,
                ))
                &&& final(state)@ == old(state)@.with_field(
                    StateField::WatcherIntervalMs,
                    StateValue::Millis(
                        idle_interval(old(state)@.watcher_interval_ms as u64) as nat,
                    ),
                )
            },
            ScreenReading::Changed { flash_prompt } => {
                &&& trim(ocr_text@).len() > 0
                &&& !unchanged_screen(old(state)@.last_ocr_text, ocr_text@)
                &&& final(state)@ == (StateView {
                    last_ocr_text: ocr_text@,
                    watcher_interval_ms: MIN_INTERVAL_MS as nat,
                    ..old(state)@
                })
                &&& flash_prompt@ == flash_instruction() + ocr_text@
            },
        },
{
    let cs = chars_of(ocr_text.as_str());
    let trimmed = trim_chars(&cs);
    let last = state.get_last_ocr_text();
    if trimmed.len() == 0 || screen_unchanged(last.as_str(), ocr_text.as_str()) {
        let current = state.get_watcher_interval_ms();
        state.set_watcher_interval_ms(next_idle_interval(current));
        return ScreenReading::Unchanged;
    }
    let prompt = flash_prompt(ocr_text.as_str());
    state.set_last_ocr_text(ocr_text);
    state.set_watcher_interval_ms(MIN_INTERVAL_MS);
    ScreenReading::Changed { flash_prompt: prompt }
}

/// What the filtering model's reply leads to.
pub enum FlashVerdict {
    /// The watcher was stopped while the model was asked: the reply is
    /// dropped.
    Stopped,
    /// The screen holds nothing worth answering.
    NothingRelevant,
    /// Ask the answering model this prompt.
    Ask { pro_prompt: String },
}

/// The filtering model's reply: dropped when the watcher was stopped in
/// the meantime; the marker for irrelevant content resets the pause to its
/// default; anything else is passed on with the user's prompt.
pub fn watcher_after_flash(state: &mut AppState, content: &str) -> (r: FlashVerdict)
    ensures
        interval_of(final(state)@) == next_interval(
            interval_of(old(state)@),
            match r {
                FlashVerdict::NothingRelevant => IntervalEvent::NothingRelevant,
                _ => IntervalEvent::Kept,
            },
        ),
        in_range(interval_of(old(state)@)) ==> in_range(interval_of(final(state)@)),
        match r {
            FlashVerdict::Stopped => {
                &&& !old(state)@.watcher_active
                &&& final(state)@ == old(state)@
            },
            FlashVerdict::NothingRelevant => {
                &&& old(state)@.watcher_active
                &&& trim(content@) == "NO_RELEVANT_CONTENT"@
                &&& final(state)@ == old(state)@.with_field(
                    StateField::WatcherIntervalMs,
                    StateValue::Millis(DEFAULT_INTERVAL_MS as nat),
                )
            },
            FlashVerdict::Ask { pro_prompt } => {
                &&& old(state)@.watcher_active
                &&& trim(content@) != "NO_RELEVANT_CONTENT"@
                &&& final(state)@ == old(state)@
                &&& pro_prompt@ == pro_prompt_of(
                    old(state)@.prompt,
                    old(state)@.response_language,
                    content@,
                )
            },
        },
{
    if !state.get_watcher_active() {
        return FlashVerdict::Stopped;
    }
    let cs = chars_of(content);
    let trimmed = string_of(&trim_chars(&cs));
    if str_eq(trimmed.as_str(), "NO_RELEVANT_CONTENT") {
        state.set_watcher_interval_ms(DEFAULT_INTERVAL_MS);
        return FlashVerdict::NothingRelevant;
    }
    let prompt = state.get_prompt();
    let language = state.get_response_language();
    FlashVerdict::Ask { pro_prompt: pro_prompt(prompt.as_str(), language.as_str(), content) }
}

/// A failed request lengthens the pause.
pub fn watcher_after_failure(state: &mut AppState)
    ensures
        interval_of(final(state)@) == next_interval(interval_of(old(state)@), IntervalEvent::Failed),
        in_range(interval_of(old(state)@)) ==> in_range(interval_of(final(state)@)),
        final(state)@ == old(state)@.with_field(
            StateField::WatcherIntervalMs,
            StateValue::Millis(backoff_interval(old(state)@.watcher_interval_ms as u64) as nat),
        ),
{
    let current = state.get_watcher_interval_ms();
    state.set_watcher_interval_ms(next_backoff_interval(current));
}

/// The state after an answer: the answer becomes the last response and the
/// pause returns to its default, unless the watcher was stopped in the
/// meantime, in which case nothing changes.
pub open spec fn answered(s: StateView, response: Seq<char>) -> StateView {
    if s.watcher_active {
        StateView {
            last_response: Some(response),
            watcher_interval_ms: DEFAULT_INTERVAL_MS as nat,
            ..s
        }
    } else {
        s
    }
}

/// Takes in an answer; tells whether it was kept.
pub fn watcher_after_answer(state: &mut AppState, response: String) -> (kept: bool)
    ensures
        interval_of(final(state)@) == next_interval(
            interval_of(old(state)@),
            if kept {
                IntervalEvent::Answered
            } else {
                IntervalEvent::Kept
            },
        ),
        in_range(interval_of(old(state)@)) ==> in_range(interval_of(final(state)@)),
        kept == old(state)@.watcher_active,
        final(state)@ == answered(old(state)@, response@),
{
    if !state.get_watcher_active() {
        return false;
    }
    state.set_last_response(Some(response));
    state.set_watcher_interval_ms(DEFAULT_INTERVAL_MS);
    true
}

/// An answer that arrives after the watcher was stopped is dropped: the
/// state stays as stopping left it.
pub proof fn lemma_stopped_watcher_drops_answers(s: StateView, response: Seq<char>)
    ensures
        answered(unwatched(s), response) == unwatched(s),
        !unwatched(s).watcher_active,
{
}

/// Every step of the watcher keeps the pause between two and ten seconds.
pub proof fn lemma_interval_stays_in_range(ms: u64)
    requires
        in_range(ms),
    ensures
        in_range(idle_interval(ms)),
        in_range(backoff_interval(ms)),
        in_range(MIN_INTERVAL_MS),
        in_range(DEFAULT_INTERVAL_MS),
{
}

/// While the screen stays the same the pause only grows, up to the maximum.
pub proof fn lemma_idle_interval_grows(ms: u64)
    requires
        in_range(ms),
    ensures
        idle_interval(ms) >= ms,
        ms < MAX_INTERVAL_MS ==> idle_interval(ms) > ms,
        idle_interval(ms) <= MAX_INTERVAL_MS,
{
}

} // verus!
