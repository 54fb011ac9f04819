//! Lexical similarity between an HTML payload and its plain-text sibling.
use vstd::prelude::*;
use crate::budget::{PerformanceError, PerformanceMonitor};
use crate::fraction::Fraction;
use crate::text::{
    chars_of, has_word, lower_of, seqs_of, split_words, starts_with, starts_with_str, to_lower,
    words, collapsed, join_words, join_word_list, lemma_join_collapsed, lemma_words_clean,
};

verus! {

broadcast use vstd::seq_lib::group_seq_properties, vstd::set::group_set_axioms, vstd::set_lib::group_set_properties;

/// Above this many characters in either payload, similarity is estimated by sampling.
pub const SAMPLING_THRESHOLD: usize = 50000;

/// The number of leading characters that the sampling estimate compares.
pub const SAMPLE_SIZE: usize = 1000;

/// Tag stripping looks at no more than this many leading characters of the HTML.
pub const STRIP_LIMIT: usize = 100000;

/// The budget is polled once every this many compared characters when sampling.
pub const SAMPLE_POLL: usize = 100;

/// The budget is polled once every this many characters when stripping tags.
pub const STRIP_POLL: usize = 1000;

/// The budget is polled once every this many words when building word sets.
pub const WORD_POLL: usize = 100;

/// The error that a failed timeout check of `m` gives.
pub open spec fn timeout_error(m: &PerformanceMonitor) -> PerformanceError {
    PerformanceError::AnalysisTimeout { timeout_ms: m.timeout_of() }
}

/// A budgeted result: either the expected value or the timeout error of `m`.
pub open spec fn value_or_timeout<T>(r: Result<T, PerformanceError>, v: T, m: &PerformanceMonitor) -> bool {
    match r {
        Ok(x) => x == v,
        Err(e) => e == timeout_error(m),
    }
}

/// How many of the first `n` positions hold the same character in `h` and `t`.
pub open spec fn matching_positions(h: Seq<char>, t: Seq<char>, n: int) -> nat
    decreases n,
{
    if n <= 0 {
        0
    } else {
        matching_positions(h, t, n - 1) + if h[n - 1] == t[n - 1] { 1nat } else { 0nat }
    }
}

/// The smaller of two integers.
pub open spec fn min_int(a: int, b: int) -> int {
    if a <= b { a } else { b }
}

/// The sampling estimate: the share of equal characters among the first
/// `min(1000, |h|, |t|)` positions, or zero when there is nothing to compare.
pub open spec fn sampled_similarity(h: Seq<char>, t: Seq<char>) -> Fraction {
    let n = min_int(SAMPLE_SIZE as int, min_int(h.len() as int, t.len() as int));
    if n == 0 {
        Fraction::zero()
    } else {
        Fraction { num: matching_positions(h, t, n) as u64, den: n as u64 }
    }
}

/// The state of the tag stripper: inside a tag, inside a script or style element, the tag
/// name read so far, and the text kept so far.
pub type StripState = (bool, bool, Seq<char>, Seq<char>);

/// A tag name that opens a script or style element.
pub open spec fn opens_raw_text(name: Seq<char>) -> bool {
    starts_with(name, "script"@) || starts_with(name, "style"@)
}

/// A tag name that closes a script or style element.
pub open spec fn closes_raw_text(name: Seq<char>) -> bool {
    starts_with(name, "/script"@) || starts_with(name, "/style"@)
}

/// One character of tag stripping. `<` opens a tag and clears its name; `>` closes an open tag
/// and, by its lower-cased name, enters or leaves a script or style element; any other
/// character extends the tag name inside a tag, is kept outside script and style elements, and
/// is dropped inside them.
pub open spec fn strip_step(st: StripState, c: char) -> StripState {
    if c == '<' {
        (true, st.1, Seq::empty(), st.3)
    } else if c == '>' {
        if st.0 {
            let name = lower_of(st.2);
            let raw = if opens_raw_text(name) {
                true
            } else if closes_raw_text(name) {
                false
            } else {
                st.1
            };
            (false, raw, st.2, st.3)
        } else {
            st
        }
    } else if st.0 {
        (st.0, st.1, st.2.push(c), st.3)
    } else if !st.1 {
        (st.0, st.1, st.2, st.3.push(c))
    } else {
        st
    }
}

/// The stripper's state after reading all of `s`.
pub open spec fn strip_run(s: Seq<char>) -> StripState
    decreases s.len(),
{
    if s.len() == 0 {
        (false, false, Seq::empty(), Seq::empty())
    } else {
        strip_step(strip_run(s.drop_last()), s.last())
    }
}

/// The text of `html` outside tags and script and style elements, read from its first
/// 100,000 characters.
pub open spec fn stripped_text(html: Seq<char>) -> Seq<char> {
    strip_run(html.take(min_int(STRIP_LIMIT as int, html.len() as int))).3
}

/// Word-set Jaccard similarity: shared words over all words, or zero when either side has no
/// words.
pub open spec fn jaccard(a: Seq<Seq<char>>, b: Seq<Seq<char>>) -> Fraction {
    let sa = a.to_set();
    let sb = b.to_set();
    if a.len() == 0 || b.len() == 0 {
        Fraction::zero()
    } else {
        Fraction { num: sa.intersect(sb).len() as u64, den: (sa + sb).len() as u64 }
    }
}

/// The standard estimate: Jaccard similarity of the words of the visible text of the HTML and
/// of the text.
pub open spec fn standard_similarity(h: Seq<char>, t: Seq<char>) -> Fraction {
    jaccard(words(extracted_text(h)), words(t))
}

/// The similarity of an HTML payload and a text payload: sampled when either exceeds
/// 50,000 characters, standard otherwise.
pub open spec fn similarity_of(h: Seq<char>, t: Seq<char>) -> Fraction {
    if h.len() > SAMPLING_THRESHOLD || t.len() > SAMPLING_THRESHOLD {
        sampled_similarity(h, t)
    } else {
        standard_similarity(h, t)
    }
}

/// The sampling estimate, polling the budget every hundred positions.
pub fn calculate_similarity_fast(h: &Vec<char>, t: &Vec<char>, monitor: &PerformanceMonitor) -> (r:
    Result<Fraction, PerformanceError>)
    ensures
        value_or_timeout(r, sampled_similarity(h@, t@), monitor),
{
    monitor.check_timeout()?;
    let mut n: usize = SAMPLE_SIZE;
    if h.len() < n {
        n = h.len();
    }
    if t.len() < n {
        n = t.len();
    }
    if n == 0 {
        return Ok(Fraction::new_zero());
    }
    let mut matches: u64 = 0;
    let mut i: usize = 0;
    while i < n
        invariant
            n <= SAMPLE_SIZE,
            n <= h.len(),
            n <= t.len(),
            i <= n,
            matches == matching_positions(h@, t@, i as int),
            matches <= i,
        decreases n - i,
    {
        if h[i] == t[i] {
            matches += 1;
        }
        if i % SAMPLE_POLL == 0 {
            monitor.check_timeout()?;
        }
        i += 1;
    }
    Ok(Fraction { num: matches, den: n as u64 })
}

/// Text outside tags and script and style elements, polling the budget every thousand
/// characters.
fn strip_markup(html: &Vec<char>, monitor: &PerformanceMonitor) -> (r: Result<
    Vec<char>,
    PerformanceError,
>)
    ensures
        match r {
            Ok(v) => v@ == stripped_text(html@),
            Err(e) => e == timeout_error(monitor),
        },
{
    monitor.check_timeout()?;
    let mut limit: usize = html.len();
    if limit > STRIP_LIMIT {
        limit = STRIP_LIMIT;
    }
    let ghost part = html@.take(limit as int);
    let mut in_tag = false;
    let mut in_raw = false;
    let mut name: Vec<char> = Vec::new();
    let mut out: Vec<char> = Vec::new();
    let mut i: usize = 0;
    while i < limit
        invariant
            limit <= html.len(),
            part == html@.take(limit as int),
            i <= limit,
            strip_run(part.take(i as int)) == (in_tag, in_raw, name@, out@),
        decreases limit - i,
    {
        if i % STRIP_POLL == 0 {
            monitor.check_timeout()?;
        }
        let c = html[i];
        assert(part.take(i + 1).drop_last() == part.take(i as int));
        assert(part.take(i + 1).last() == c);
        if c == '<' {
            in_tag = true;
            name = Vec::new();
        } else if c == '>' {
            if in_tag {
                in_tag = false;
                let lowered = to_lower(&crate::text::string_of(&name));
                let lv = chars_of(lowered.as_str());
                if starts_with_str(&lv, "script") || starts_with_str(&lv, "style") {
                    in_raw = true;
                } else if starts_with_str(&lv, "/script") || starts_with_str(&lv, "/style") {
                    in_raw = false;
                }
            }
        } else if in_tag {
            name.push(c);
        } else if !in_raw {
            out.push(c);
        }
        i += 1;
    }
    assert(part.take(limit as int) == part);
    Ok(out)
}

/// The visible text of `html`: its words outside tags and script and style elements, joined
/// by single spaces.
pub open spec fn extracted_text(html: Seq<char>) -> Seq<char> {
    join_words(words(stripped_text(html)))
}

/// The visible text of `html` with white space collapsed: the words outside tags and script
/// and style elements of its first 100,000 characters, joined by single spaces. Polls the
/// budget every thousand characters.
pub fn extract_text_from_html_optimized(html: &Vec<char>, monitor: &PerformanceMonitor) -> (r: Result<
    Vec<char>,
    PerformanceError,
>)
    ensures
        match r {
            Ok(v) => v@ == extracted_text(html@) && collapsed(v@),
            Err(e) => e == timeout_error(monitor),
        },
{
    monitor.check_timeout()?;
    let kept = strip_markup(html, monitor)?;
    let ws = split_words(&kept);
    let joined = join_word_list(&ws);
    proof {
        lemma_words_clean(kept@);
        lemma_join_collapsed(words(kept@));
    }
    Ok(joined)
}

/// Appending an element adds it to the set of elements.
proof fn lemma_push_to_set(s: Seq<Seq<char>>, x: Seq<char>)
    ensures
        s.push(x).to_set() == s.to_set().insert(x),
{
    assert(s + seq![x] =~= s.push(x));
    Seq::lemma_to_set_insert_commutes(s, x);
}

/// The distinct words of `ws`, polling the budget every hundred words.
fn distinct_words(ws: &Vec<Vec<char>>, monitor: &PerformanceMonitor) -> (r: Result<
    Vec<Vec<char>>,
    PerformanceError,
>)
    ensures
        match r {
            Ok(d) => seqs_of(d@).no_duplicates() && seqs_of(d@).to_set() == seqs_of(ws@).to_set()
                && d.len() <= ws.len(),
            Err(e) => e == timeout_error(monitor),
        },
{
    let mut d: Vec<Vec<char>> = Vec::new();
    let mut i: usize = 0;
    while i < ws.len()
        invariant
            i <= ws.len(),
            d.len() <= i,
            seqs_of(d@).no_duplicates(),
            seqs_of(d@).to_set() == seqs_of(ws@).take(i as int).to_set(),
        decreases ws.len() - i,
    {
        if i % WORD_POLL == 0 {
            monitor.check_timeout()?;
        }
        let ghost before = seqs_of(d@);
        assert(seqs_of(ws@).take(i + 1) == seqs_of(ws@).take(i as int).push(ws@[i as int]@));
        proof {
            lemma_push_to_set(seqs_of(ws@).take(i as int), ws@[i as int]@);
        }
        if !has_word(&d, &ws[i]) {
            let w = ws[i].clone();
            assert(w@ == ws@[i as int]@);
            d.push(w);
            assert(seqs_of(d@) == before.push(w@));
            proof {
                lemma_push_to_set(before, w@);
                assert(!before.contains(w@));
            }
        } else {
            assert(before.to_set().contains(ws@[i as int]@));
            assert(before.to_set().insert(ws@[i as int]@) == before.to_set());
        }
        i += 1;
    }
    assert(seqs_of(ws@).take(ws.len() as int) == seqs_of(ws@));
    Ok(d)
}

/// The number of words of `a` that also occur in `b`, polling the budget every hundred words.
fn shared_count(a: &Vec<Vec<char>>, b: &Vec<Vec<char>>, monitor: &PerformanceMonitor) -> (r:
    Result<usize, PerformanceError>)
    requires
        seqs_of(a@).no_duplicates(),
    ensures
        match r {
            Ok(n) => n == seqs_of(a@).to_set().intersect(seqs_of(b@).to_set()).len() && n
                <= a.len(),
            Err(e) => e == timeout_error(monitor),
        },
{
    let ghost sb = seqs_of(b@).to_set();
    let mut n: usize = 0;
    let mut k: usize = 0;
    while k < a.len()
        invariant
            k <= a.len(),
            n <= k,
            seqs_of(a@).no_duplicates(),
            sb == seqs_of(b@).to_set(),
            n == seqs_of(a@).take(k as int).to_set().intersect(sb).len(),
        decreases a.len() - k,
    {
        if k % WORD_POLL == 0 {
            monitor.check_timeout()?;
        }
        let ghost x = a@[k as int]@;
        let ghost prev = seqs_of(a@).take(k as int).to_set();
        assert(seqs_of(a@).take(k + 1) == seqs_of(a@).take(k as int).push(x));
        proof {
            lemma_push_to_set(seqs_of(a@).take(k as int), x);
        }
        assert(!prev.contains(x)) by {
            if prev.contains(x) {
                let j = choose|j: int| 0 <= j < k && seqs_of(a@).take(k as int)[j] == x;
                assert(seqs_of(a@)[j] == seqs_of(a@)[k as int]);
            }
        }
        if has_word(b, &a[k]) {
            assert(prev.insert(x).intersect(sb) =~= prev.intersect(sb).insert(x));
            n += 1;
        } else {
            assert(prev.insert(x).intersect(sb) =~= prev.intersect(sb));
        }
        k += 1;
    }
    assert(seqs_of(a@).take(a.len() as int) == seqs_of(a@));
    Ok(n)
}

/// Jaccard similarity of two word lists, polling the budget.
fn calculate_jaccard_similarity(wa: &Vec<Vec<char>>, wb: &Vec<Vec<char>>, monitor: &PerformanceMonitor) -> (r:
    Result<Fraction, PerformanceError>)
    ensures
        value_or_timeout(r, jaccard(seqs_of(wa@), seqs_of(wb@)), monitor),
{
    monitor.check_timeout()?;
    if wa.len() == 0 || wb.len() == 0 {
        return Ok(Fraction::new_zero());
    }
    let da = distinct_words(wa, monitor)?;
    let db = distinct_words(wb, monitor)?;
    monitor.check_timeout()?;
    let shared = shared_count(&da, &db, monitor)?;
    let ghost sa = seqs_of(wa@).to_set();
    let ghost sb = seqs_of(wb@).to_set();
    proof {
        seqs_of(da@).unique_seq_to_set();
        seqs_of(db@).unique_seq_to_set();
        vstd::set_lib::lemma_set_intersect_union_lens(sa, sb);
    }
    let total: u128 = da.len() as u128 + db.len() as u128 - shared as u128;
    Ok(Fraction { num: shared as u64, den: total as u64 })
}

/// The standard estimate, polling the budget.
pub fn calculate_similarity_standard(h: &Vec<char>, t: &Vec<char>, monitor: &PerformanceMonitor) -> (r:
    Result<Fraction, PerformanceError>)
    ensures
        value_or_timeout(r, standard_similarity(h@, t@), monitor),
{
    monitor.check_timeout()?;
    let html_text = extract_text_from_html_optimized(h, monitor)?;
    let wa = split_words(&html_text);
    let wb = split_words(t);
    if wa.len() == 0 || wb.len() == 0 {
        return Ok(Fraction::new_zero());
    }
    monitor.check_timeout()?;
    calculate_jaccard_similarity(&wa, &wb, monitor)
}

/// The similarity of an HTML payload and a text payload, both lower-cased by the caller.
pub fn similarity_exec(h: &Vec<char>, t: &Vec<char>, monitor: &PerformanceMonitor) -> (r: Result<
    Fraction,
    PerformanceError,
>)
    ensures
        value_or_timeout(r, similarity_of(h@, t@), monitor),
{
    monitor.check_timeout()?;
    if h.len() > SAMPLING_THRESHOLD || t.len() > SAMPLING_THRESHOLD {
        calculate_similarity_fast(h, t, monitor)
    } else {
        calculate_similarity_standard(h, t, monitor)
    }
}

} // verus!
