//! Character-level text utilities shared by the transcript filters, the
//! screen watcher and the keyword scanners.
//!
//! Text is modelled as `Seq<char>`; every executable helper here states its
//! result over that model.
use vstd::prelude::*;
use vstd::utf8::encode_utf8;
use vstd::utf8::encode_scalar;
use vstd::string::StringExecFns;

verus! {

broadcast use vstd::string::axiom_spec_iter;

// ---------------------------------------------------------------------------
// Names for what std's Unicode tables compute
// ---------------------------------------------------------------------------

/// What `str::to_lowercase` returns for a string.
pub uninterp spec fn lowercase(s: Seq<char>) -> Seq<char>;

/// Whether `char::is_alphanumeric` holds of a character.
pub uninterp spec fn alphanumeric(c: char) -> bool;

/// Whether `char::is_alphabetic` holds of a character.
pub uninterp spec fn alphabetic(c: char) -> bool;

pub open spec fn is_ascii_char(c: char) -> bool {
    (c as u32) < 128
}

pub open spec fn ascii_letter(c: char) -> bool {
    ('a' <= c && c <= 'z') || ('A' <= c && c <= 'Z')
}

pub open spec fn ascii_digit(c: char) -> bool {
    '0' <= c && c <= '9'
}

pub open spec fn ascii_lower(c: char) -> char {
    if 'A' <= c && c <= 'Z' {
        ((c as u32) + 32) as char
    } else {
        c
    }
}

pub open spec fn ascii_upper(c: char) -> char {
    if 'a' <= c && c <= 'z' {
        ((c as u32) - 32) as char
    } else {
        c
    }
}

pub open spec fn all_ascii(s: Seq<char>) -> bool {
    forall|i: int| 0 <= i < s.len() ==> is_ascii_char(#[trigger] s[i])
}

/// `str::to_lowercase`: the name `lowercase` stands for the Unicode mapping;
/// on ASCII text it is the plain `A-Z` to `a-z` mapping, as std documents.
#[verifier::external_body]
pub(crate) fn to_lowercase(s: &str) -> (r: String)
    ensures
        r@ == lowercase(s@),
        all_ascii(s@) ==> r@ == s@.map_values(|c: char| ascii_lower(c)),
{
    s.to_lowercase()
}

/// `char::is_alphanumeric`: the name `alphanumeric` stands for the Unicode
/// Alphabetic/Numeric properties; within ASCII they are the letters and digits.
#[verifier::external_body]
pub(crate) fn char_is_alphanumeric(c: char) -> (r: bool)
    ensures
        r == alphanumeric(c),
        is_ascii_char(c) ==> (r <==> (ascii_letter(c) || ascii_digit(c))),
{
    c.is_alphanumeric()
}

/// `char::is_alphabetic`: the name `alphabetic` stands for the Unicode
/// Alphabetic property; within ASCII it holds of the letters only.
#[verifier::external_body]
pub(crate) fn char_is_alphabetic(c: char) -> (r: bool)
    ensures
        r == alphabetic(c),
        is_ascii_char(c) ==> (r <==> ascii_letter(c)),
{
    c.is_alphabetic()
}

/// `String::push`: appends one character.
#[verifier::external_body]
pub(crate) fn push_char(s: &mut String, c: char)
    ensures
        final(s)@ == old(s)@.push(c),
{
    s.push(c);
}

// ---------------------------------------------------------------------------
// Characters, bytes and whitespace
// ---------------------------------------------------------------------------

/// The Unicode `White_Space` property, which `char::is_whitespace` tests.
pub open spec fn white_space(c: char) -> bool {
    let v = c as u32;
    (0x09 <= v && v <= 0x0D) || v == 0x20 || v == 0x85 || v == 0xA0 || v == 0x1680
        || (0x2000 <= v && v <= 0x200A) || v == 0x2028 || v == 0x2029 || v == 0x202F
        || v == 0x205F || v == 0x3000
}

pub fn is_whitespace(c: char) -> (r: bool)
    ensures
        r == white_space(c),
{
    let v = c as u32;
    (0x09 <= v && v <= 0x0D) || v == 0x20 || v == 0x85 || v == 0xA0 || v == 0x1680 || (0x2000
        <= v && v <= 0x200A) || v == 0x2028 || v == 0x2029 || v == 0x202F || v == 0x205F || v
        == 0x3000
}

/// Number of bytes in the UTF-8 encoding of one character.
pub open spec fn char_width(c: char) -> nat {
    encode_scalar(c as u32).len()
}

/// Number of bytes in the UTF-8 encoding of a text (`str::len`).
pub open spec fn byte_len(s: Seq<char>) -> nat {
    encode_utf8(s).len()
}

pub fn len_utf8(c: char) -> (r: usize)
    ensures
        r == char_width(c),
        1 <= r <= 4,
{
    let v = c as u32;
    if v <= 0x7F {
        1
    } else if v <= 0x7FF {
        2
    } else if v <= 0xFFFF {
        3
    } else {
        4
    }
}

pub fn chars_of(s: &str) -> (r: Vec<char>)
    ensures
        r@ == s@,
{
    let mut v: Vec<char> = Vec::new();
    for c in it: s.chars()
        invariant
            v@ == it.seq().take(it.index() as int),
            it.seq() == s@,
    {
        v.push(c);
    }
    v
}

pub fn string_of(v: &Vec<char>) -> (r: String)
    ensures
        r@ == v@,
{
    let mut s = String::new();
    let mut i: usize = 0;
    while i < v.len()
        invariant
            i <= v.len(),
            s@ == v@.take(i as int),
        decreases v.len() - i,
    {
        push_char(&mut s, v[i]);
        i += 1;
        assert(s@ =~= v@.take(i as int));
    }
    assert(v@.take(v.len() as int) =~= v@);
    s
}

// ---------------------------------------------------------------------------
// Trimming
// ---------------------------------------------------------------------------

pub open spec fn trim_start(s: Seq<char>) -> Seq<char>
    decreases s.len(),
{
    if s.len() > 0 && white_space(s[0]) {
        trim_start(s.drop_first())
    } else {
        s
    }
}

pub open spec fn trim_end(s: Seq<char>) -> Seq<char>
    decreases s.len(),
{
    if s.len() > 0 && white_space(s.last()) {
        trim_end(s.drop_last())
    } else {
        s
    }
}

/// `str::trim`: whitespace removed at both ends.
pub open spec fn trim(s: Seq<char>) -> Seq<char> {
    trim_end(trim_start(s))
}

/// Every character is whitespace.
pub open spec fn all_white(s: Seq<char>) -> bool {
    forall|i: int| 0 <= i < s.len() ==> white_space(#[trigger] s[i])
}

pub proof fn lemma_trim_start_all_white(s: Seq<char>)
    requires
        all_white(s),
    ensures
        trim_start(s) == Seq::<char>::empty(),
    decreases s.len(),
{
    if s.len() > 0 {
        assert(white_space(s[0]));
        lemma_trim_start_all_white(s.drop_first());
    }
}

pub proof fn lemma_trim_start_skips_white(p: Seq<char>, m: Seq<char>)
    requires
        all_white(p),
    ensures
        trim_start(p + m) == trim_start(m),
    decreases p.len(),
{
    if p.len() > 0 {
        assert((p + m)[0] == p[0]);
        assert(white_space(p[0]));
        assert((p + m).drop_first() =~= p.drop_first() + m);
        lemma_trim_start_skips_white(p.drop_first(), m);
    } else {
        assert(p + m =~= m);
    }
}

pub proof fn lemma_trim_end_skips_white(m: Seq<char>, q: Seq<char>)
    requires
        all_white(q),
    ensures
        trim_end(m + q) == trim_end(m),
    decreases q.len(),
{
    if q.len() > 0 {
        assert((m + q).last() == q.last());
        assert(white_space(q[q.len() - 1]));
        assert((m + q).drop_last() =~= m + q.drop_last());
        lemma_trim_end_skips_white(m, q.drop_last());
    } else {
        assert(m + q =~= m);
    }
}

/// Whitespace added at either end does not change the trimmed text.
pub proof fn lemma_trim_ignores_padding(p: Seq<char>, m: Seq<char>, q: Seq<char>)
    requires
        all_white(p),
        all_white(q),
    ensures
        trim(p + m + q) == trim(m),
    decreases m.len(),
{
    assert(p + m + q =~= p + (m + q));
    lemma_trim_start_skips_white(p, m + q);
    if m.len() == 0 {
        assert(m + q =~= q);
        lemma_trim_start_all_white(q);
    } else if white_space(m[0]) {
        assert((m + q)[0] == m[0]);
        assert((m + q).drop_first() =~= m.drop_first() + q);
        lemma_trim_ignores_padding(seq![], m.drop_first(), q);
        assert(seq![] + m.drop_first() + q =~= m.drop_first() + q);
    } else {
        assert((m + q)[0] == m[0]);
        lemma_trim_end_skips_white(m, q);
    }
}

pub fn trim_chars(s: &Vec<char>) -> (r: Vec<char>)
    ensures
        r@ == trim(s@),
{
    let n = s.len();
    let mut i: usize = 0;
    assert(s@.skip(0) =~= s@);
    while i < n && is_whitespace(s[i])
        invariant
            n == s@.len(),
            i <= n,
            trim_start(s@) == trim_start(s@.skip(i as int)),
        decreases n - i,
    {
        assert(s@.skip(i as int).drop_first() =~= s@.skip(i + 1));
        i += 1;
    }
    let ghost head = s@.skip(i as int);
    assert(trim_start(head) == head);
    let mut j: usize = n;
    while j > i && is_whitespace(s[j - 1])
        invariant
            i <= j <= n,
            n == s@.len(),
            head == s@.skip(i as int),
            trim_end(head) == trim_end(s@.subrange(i as int, j as int)),
        decreases j,
    {
        assert(s@.subrange(i as int, j as int).drop_last() =~= s@.subrange(i as int, j - 1));
        j -= 1;
    }
    assert(trim_end(s@.subrange(i as int, j as int)) == s@.subrange(i as int, j as int));
    let mut out: Vec<char> = Vec::new();
    let mut k: usize = i;
    while k < j
        invariant
            i <= k <= j <= n,
            n == s@.len(),
            out@ == s@.subrange(i as int, k as int),
        decreases j - k,
    {
        out.push(s[k]);
        k += 1;
        assert(out@ =~= s@.subrange(i as int, k as int));
    }
    out
}

// ---------------------------------------------------------------------------
// Searching
// ---------------------------------------------------------------------------

pub open spec fn occurs_at(s: Seq<char>, p: Seq<char>, i: int) -> bool {
    0 <= i && i + p.len() <= s.len() && s.subrange(i, i + p.len()) == p
}

/// `str::contains` with a string pattern.
pub open spec fn contains(s: Seq<char>, p: Seq<char>) -> bool {
    exists|i: int| occurs_at(s, p, i)
}

/// `str::starts_with` with a string pattern.
pub open spec fn starts_with(s: Seq<char>, p: Seq<char>) -> bool {
    occurs_at(s, p, 0)
}

pub fn eq_chars(a: &Vec<char>, b: &Vec<char>) -> (r: bool)
    ensures
        r == (a@ == b@),
{
    if a.len() != b.len() {
        return false;
    }
    let mut i: usize = 0;
    while i < a.len()
        invariant
            a@.len() == b@.len(),
            i <= a@.len(),
            forall|k: int| 0 <= k < i ==> a@[k] == b@[k],
        decreases a.len() - i,
    {
        if a[i] != b[i] {
            return false;
        }
        i += 1;
    }
    assert(a@ =~= b@);
    true
}

/// Whether two texts are equal.
pub fn str_eq(a: &str, b: &str) -> (r: bool)
    ensures
        r == (a@ == b@),
{
    let ac = chars_of(a);
    let bc = chars_of(b);
    eq_chars(&ac, &bc)
}

pub fn occurs_at_exec(s: &Vec<char>, p: &Vec<char>, i: usize) -> (r: bool)
    ensures
        r == occurs_at(s@, p@, i as int),
{
    if i > s.len() || p.len() > s.len() - i {
        return false;
    }
    let mut k: usize = 0;
    while k < p.len()
        invariant
            i + p@.len() <= s.len(),
            k <= p@.len(),
            forall|m: int| 0 <= m < k ==> s@[i + m] == p@[m],
        decreases p.len() - k,
    {
        if s[i + k] != p[k] {
            assert(s@.subrange(i as int, i + p@.len())[k as int] != p@[k as int]);
            return false;
        }
        k += 1;
    }
    assert(s@.subrange(i as int, i + p@.len()) =~= p@);
    true
}

pub fn contains_chars(s: &Vec<char>, p: &Vec<char>) -> (r: bool)
    ensures
        r == contains(s@, p@),
{
    if p.len() > s.len() {
        assert forall|i: int| !occurs_at(s@, p@, i) by {}
        return false;
    }
    let limit = s.len() - p.len();
    let mut i: usize = 0;
    loop
        invariant
            limit == s@.len() - p@.len(),
            i <= limit,
            forall|k: int| 0 <= k < i ==> !occurs_at(s@, p@, k),
        ensures
            forall|k: int| 0 <= k <= limit ==> !occurs_at(s@, p@, k),
        decreases limit - i,
    {
        if occurs_at_exec(s, p, i) {
            return true;
        }
        if i == limit {
            break;
        }
        i += 1;
    }
    assert forall|k: int| !occurs_at(s@, p@, k) by {
        if 0 <= k && k + p@.len() <= s@.len() {
            assert(k <= limit);
        }
    }
    false
}

/// Number of non-overlapping occurrences of `p` in `s`, leftmost first
/// (`str::matches(p).count()`).
pub open spec fn match_count(s: Seq<char>, p: Seq<char>) -> nat
    decreases s.len(),
{
    if p.len() == 0 || s.len() < p.len() {
        0
    } else if s.take(p.len() as int) == p {
        1 + match_count(s.skip(p.len() as int), p)
    } else {
        match_count(s.drop_first(), p)
    }
}

pub fn count_matches(s: &Vec<char>, p: &Vec<char>) -> (r: usize)
    requires
        p@.len() > 0,
    ensures
        r == match_count(s@, p@),
{
    let mut i: usize = 0;
    let mut count: usize = 0;
    assert(s@.skip(0) =~= s@);
    while i < s.len() && p.len() <= s.len() - i
        invariant
            p@.len() > 0,
            i <= s@.len(),
            count <= i,
            count + match_count(s@.skip(i as int), p@) == match_count(s@, p@),
        decreases s.len() - i,
    {
        let ghost rest = s@.skip(i as int);
        if occurs_at_exec(s, p, i) {
            assert(rest.take(p@.len() as int) =~= s@.subrange(i as int, i + p@.len()));
            assert(rest.skip(p@.len() as int) =~= s@.skip(i + p@.len()));
            count += 1;
            i += p.len();
        } else {
            assert(rest.take(p@.len() as int) =~= s@.subrange(i as int, i + p@.len()));
            assert(rest.drop_first() =~= s@.skip(i + 1));
            i += 1;
        }
    }
    count
}

/// The texts of a list of string slices.
pub open spec fn text_views(l: Seq<&str>) -> Seq<Seq<char>> {
    l.map_values(|p: &str| p@)
}

/// The texts of a list of strings.
pub open spec fn string_views(v: Seq<String>) -> Seq<Seq<char>> {
    v.map_values(|s: String| s@)
}

/// For each key, in order, that occurs in `text`: the key between `before`
/// and `after`.
pub open spec fn found_messages(
    text: Seq<char>,
    keys: Seq<Seq<char>>,
    before: Seq<char>,
    after: Seq<char>,
) -> Seq<Seq<char>>
    decreases keys.len(),
{
    if keys.len() == 0 {
        seq![]
    } else {
        let rest = found_messages(text, keys.drop_last(), before, after);
        if contains(text, keys.last()) {
            rest.push(before + keys.last() + after)
        } else {
            rest
        }
    }
}

/// Appends a message for each key that occurs in `text`.
pub fn push_found(out: &mut Vec<String>, text: &Vec<char>, keys: &Vec<&str>, before: &str, after: &str)
    ensures
        string_views(final(out)@) == string_views(old(out)@) + found_messages(
            text@,
            text_views(keys@),
            before@,
            after@,
        ),
{
    let ghost start = string_views(out@);
    let mut i: usize = 0;
    while i < keys.len()
        invariant
            i <= keys@.len(),
            string_views(out@) == start + found_messages(
                text@,
                text_views(keys@).take(i as int),
                before@,
                after@,
            ),
        decreases keys.len() - i,
    {
        let ghost prev = string_views(out@);
        let key = chars_of(keys[i]);
        assert(text_views(keys@).take(i + 1).drop_last() =~= text_views(keys@).take(i as int));
        assert(text_views(keys@).take(i + 1).last() == keys@[i as int]@);
        if contains_chars(text, &key) {
            let mut m = before.to_owned();
            m.append(keys[i]);
            m.append(after);
            let ghost mv = m@;
            out.push(m);
            assert(string_views(out@) =~= prev.push(mv));
        }
        i += 1;
    }
    assert(text_views(keys@).take(keys@.len() as int) =~= text_views(keys@));
}

// ---------------------------------------------------------------------------
// Words
// ---------------------------------------------------------------------------

pub open spec fn views(v: Seq<Vec<char>>) -> Seq<Seq<char>> {
    v.map_values(|w: Vec<char>| w@)
}

/// `str::split_whitespace`: the maximal runs of non-whitespace characters.
pub open spec fn split_ws(s: Seq<char>) -> Seq<Seq<char>>
    decreases s.len(),
{
    if s.len() == 0 {
        seq![]
    } else {
        let init = s.drop_last();
        let c = s.last();
        let w = split_ws(init);
        if white_space(c) {
            w
        } else if init.len() > 0 && !white_space(init.last()) {
            w.update(w.len() - 1, w.last().push(c))
        } else {
            w.push(seq![c])
        }
    }
}

pub proof fn lemma_split_ws_nonempty(s: Seq<char>)
    requires
        s.len() > 0,
        !white_space(s.last()),
    ensures
        split_ws(s).len() > 0,
    decreases s.len(),
{
    let init = s.drop_last();
    if init.len() > 0 && !white_space(init.last()) {
        lemma_split_ws_nonempty(init);
    }
}

pub fn split_whitespace(s: &Vec<char>) -> (r: Vec<Vec<char>>)
    ensures
        views(r@) == split_ws(s@),
{
    let mut done: Vec<Vec<char>> = Vec::new();
    let mut cur: Vec<char> = Vec::new();
    let mut i: usize = 0;
    while i < s.len()
        invariant
            i <= s@.len(),
            split_ws(s@.take(i as int)) == (if cur@.len() == 0 {
                views(done@)
            } else {
                views(done@).push(cur@)
            }),
            cur@.len() > 0 <==> (i > 0 && !white_space(s@[i - 1])),
        decreases s.len() - i,
    {
        let c = s[i];
        let ghost pre = s@.take(i as int);
        let ghost old_done = views(done@);
        let ghost old_cur = cur@;
        assert(s@.take(i + 1).drop_last() =~= pre);
        assert(s@.take(i + 1).last() == c);
        if is_whitespace(c) {
            if cur.len() > 0 {
                let w = cur;
                done.push(w);
                cur = Vec::new();
                assert(views(done@) =~= old_done.push(old_cur));
            }
        } else {
            if cur.len() > 0 {
                proof {
                    lemma_split_ws_nonempty(pre);
                }
                cur.push(c);
                assert(old_done.push(old_cur).update(old_done.len() as int, old_cur.push(c))
                    =~= old_done.push(cur@));
            } else {
                cur.push(c);
                assert(cur@ =~= seq![c]);
            }
        }
        i += 1;
    }
    assert(s@.take(s@.len() as int) =~= s@);
    if cur.len() > 0 {
        let ghost old_done = views(done@);
        let ghost old_cur = cur@;
        done.push(cur);
        assert(views(done@) =~= old_done.push(old_cur));
    }
    done
}

/// The words joined with single spaces (`[&str]::join(" ")`).
pub open spec fn join_spaced(ws: Seq<Seq<char>>) -> Seq<char>
    decreases ws.len(),
{
    if ws.len() == 0 {
        seq![]
    } else if ws.len() == 1 {
        ws[0]
    } else {
        join_spaced(ws.drop_last()) + seq![' '] + ws.last()
    }
}

pub fn join_words(ws: &Vec<Vec<char>>, start: usize, end: usize) -> (r: Vec<char>)
    requires
        start <= end <= ws@.len(),
    ensures
        r@ == join_spaced(views(ws@).subrange(start as int, end as int)),
{
    let mut out: Vec<char> = Vec::new();
    let mut k: usize = start;
    while k < end
        invariant
            start <= k <= end <= ws@.len(),
            out@ == join_spaced(views(ws@).subrange(start as int, k as int)),
        decreases end - k,
    {
        let ghost before = out@;
        if k > start {
            out.push(' ');
        }
        let w = &ws[k];
        let mut m: usize = 0;
        let ghost mid = out@;
        while m < w.len()
            invariant
                m <= w@.len(),
                out@ == mid + w@.take(m as int),
            decreases w.len() - m,
        {
            out.push(w[m]);
            m += 1;
            assert(out@ =~= mid + w@.take(m as int));
        }
        assert(w@.take(w@.len() as int) =~= w@);
        k += 1;
        let ghost part = views(ws@).subrange(start as int, k as int);
        assert(part.drop_last() =~= views(ws@).subrange(start as int, k - 1));
        assert(part.last() == w@);
        if k - 1 > start {
            assert(out@ =~= join_spaced(part.drop_last()) + seq![' '] + part.last());
        } else {
            assert(out@ =~= part[0]);
        }
    }
    out
}

/// Number of characters that fit, from the front of `s`, within `budget`
/// bytes of UTF-8.
pub open spec fn fit_prefix(s: Seq<char>, budget: int) -> nat
    decreases s.len(),
{
    if s.len() > 0 && char_width(s[0]) <= budget {
        1 + fit_prefix(s.drop_first(), budget - char_width(s[0]))
    } else {
        0
    }
}

pub fn fit_prefix_exec(s: &Vec<char>, budget: usize) -> (r: usize)
    ensures
        r == fit_prefix(s@, budget as int),
        r <= s@.len(),
{
    let mut i: usize = 0;
    let mut used: usize = 0;
    assert(s@.skip(0) =~= s@);
    while i < s.len() && len_utf8(s[i]) <= budget - used
        invariant
            i <= s@.len(),
            used <= budget,
            fit_prefix(s@, budget as int) == i + fit_prefix(s@.skip(i as int), budget - used),
        decreases s.len() - i,
    {
        let w = len_utf8(s[i]);
        assert(s@.skip(i as int).drop_first() =~= s@.skip(i + 1));
        assert(s@.skip(i as int)[0] == s@[i as int]);
        used += w;
        i += 1;
    }
    assert(i < s@.len() ==> s@.skip(i as int)[0] == s@[i as int]);
    i
}

} // verus!
