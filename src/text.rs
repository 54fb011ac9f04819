//! Character-level helpers: substring search, whitespace and word splitting.
use vstd::prelude::*;

verus! {

/// `pat` occurs in `hay` starting at position `i`.
pub open spec fn occurs_at(hay: Seq<char>, pat: Seq<char>, i: int) -> bool {
    0 <= i && i + pat.len() <= hay.len() && hay.subrange(i, i + pat.len()) == pat
}

/// `pat` occurs somewhere in `hay`.
pub open spec fn contains_seq(hay: Seq<char>, pat: Seq<char>) -> bool {
    exists|i: int| occurs_at(hay, pat, i)
}

/// The characters of a string slice, in order.
pub fn chars_of(s: &str) -> (r: Vec<char>)
    ensures
        r@ == s@,
{
    let mut r: Vec<char> = Vec::new();
    for c in it: s.chars()
        invariant
            r@ == it.seq().take(it.index() as int),
            it.seq() == s@,
    {
        r.push(c);
    }
    r
}

} // verus!

verus! {

/// Whether `pat` occurs in `hay` at position `i`.
pub fn occurs_at_exec(hay: &Vec<char>, pat: &Vec<char>, i: usize) -> (r: bool)
    requires
        i <= hay.len(),
    ensures
        r == occurs_at(hay@, pat@, i as int),
{
    if pat.len() > hay.len() - i {
        return false;
    }
    let mut k: usize = 0;
    while k < pat.len()
        invariant
            k <= pat.len(),
            i + pat.len() <= hay.len(),
            forall|j: int| 0 <= j < k ==> hay@[i + j] == pat@[j],
        decreases pat.len() - k,
    {
        if hay[i + k] != pat[k] {
            assert(hay@.subrange(i as int, i + pat.len())[k as int] != pat@[k as int]);
            return false;
        }
        k += 1;
    }
    assert(hay@.subrange(i as int, i + pat.len()) =~= pat@);
    true
}

/// Whether `pat` occurs anywhere in `hay`.
pub fn contains_chars(hay: &Vec<char>, pat: &Vec<char>) -> (r: bool)
    ensures
        r == contains_seq(hay@, pat@),
{
    if pat.len() == 0 {
        assert(hay@.subrange(0, 0) =~= pat@);
        assert(occurs_at(hay@, pat@, 0));
        return true;
    }
    let mut i: usize = 0;
    while i < hay.len()
        invariant
            i <= hay.len(),
            forall|j: int| 0 <= j < i ==> !occurs_at(hay@, pat@, j),
        decreases hay.len() - i,
    {
        if occurs_at_exec(hay, pat, i) {
            return true;
        }
        i += 1;
    }
    assert forall|j: int| !occurs_at(hay@, pat@, j) by {
        if 0 <= j < i {
        }
    }
    false
}

/// Whether the literal `pat` occurs anywhere in `hay`.
pub fn contains_str(hay: &Vec<char>, pat: &str) -> (r: bool)
    ensures
        r == contains_seq(hay@, pat@),
{
    let p = chars_of(pat);
    contains_chars(hay, &p)
}

/// Whether some pattern of the list occurs in `hay`.
pub open spec fn contains_any(hay: Seq<char>, pats: Seq<Seq<char>>) -> bool {
    exists|j: int| 0 <= j < pats.len() && contains_seq(hay, pats[j])
}

/// The views of a list of string slices.
pub open spec fn views_of(pats: Seq<&str>) -> Seq<Seq<char>> {
    pats.map_values(|p: &str| p@)
}

/// Whether some pattern of the list occurs in `hay`.
pub fn contains_any_str(hay: &Vec<char>, pats: &Vec<&str>) -> (r: bool)
    ensures
        r == contains_any(hay@, views_of(pats@)),
{
    let mut j: usize = 0;
    while j < pats.len()
        invariant
            j <= pats.len(),
            forall|k: int| 0 <= k < j ==> !contains_seq(hay@, pats@[k]@),
        decreases pats.len() - j,
    {
        if contains_str(hay, pats[j]) {
            assert(views_of(pats@)[j as int] == pats@[j as int]@);
            return true;
        }
        j += 1;
    }
    assert forall|k: int| 0 <= k < views_of(pats@).len() implies !contains_seq(hay@, views_of(pats@)[k]) by {
        assert(views_of(pats@)[k] == pats@[k]@);
    }
    false
}

/// Unicode `White_Space`, the set that `char::is_whitespace` and `str::split_whitespace` use.
pub open spec fn is_space(c: char) -> bool {
    let u = c as u32;
    (0x09 <= u && u <= 0x0d) || u == 0x20 || u == 0x85 || u == 0xa0 || u == 0x1680 || (0x2000
        <= u && u <= 0x200a) || u == 0x2028 || u == 0x2029 || u == 0x202f || u == 0x205f || u
        == 0x3000
}

/// Whether `c` is white space.
pub fn is_space_char(c: char) -> (r: bool)
    ensures
        r == is_space(c),
{
    let u = c as u32;
    (0x09 <= u && u <= 0x0d) || u == 0x20 || u == 0x85 || u == 0xa0 || u == 0x1680 || (0x2000
        <= u && u <= 0x200a) || u == 0x2028 || u == 0x2029 || u == 0x202f || u == 0x205f || u
        == 0x3000
}

/// The maximal runs of non-space characters of `s`, in order.
pub open spec fn words(s: Seq<char>) -> Seq<Seq<char>>
    decreases s.len(),
{
    if s.len() == 0 {
        seq![]
    } else {
        let init = s.drop_last();
        let c = s.last();
        let w = words(init);
        if is_space(c) {
            w
        } else if init.len() > 0 && !is_space(init.last()) {
            w.update(w.len() - 1, w.last().push(c))
        } else {
            w.push(seq![c])
        }
    }
}

/// The character sequences held by a list of character vectors.
pub open spec fn seqs_of(v: Seq<Vec<char>>) -> Seq<Seq<char>> {
    v.map_values(|w: Vec<char>| w@)
}

/// The words of `s`.
pub fn split_words(s: &Vec<char>) -> (r: Vec<Vec<char>>)
    ensures
        seqs_of(r@) == words(s@),
{
    let mut out: Vec<Vec<char>> = Vec::new();
    let mut cur: Vec<char> = Vec::new();
    let mut i: usize = 0;
    while i < s.len()
        invariant
            i <= s.len(),
            (i > 0 && !is_space(s@[i - 1])) ==> (cur@.len() > 0 && words(s@.take(i as int))
                == seqs_of(out@).push(cur@)),
            !(i > 0 && !is_space(s@[i - 1])) ==> (cur@.len() == 0 && words(s@.take(i as int))
                == seqs_of(out@)),
        decreases s.len() - i,
    {
        let c = s[i];
        let ghost prev = s@.take(i as int);
        let ghost before = seqs_of(out@);
        let ghost cur_before = cur@;
        assert(s@.take(i + 1).drop_last() == prev);
        assert(s@.take(i + 1).last() == c);
        if is_space_char(c) {
            if cur.len() > 0 {
                out.push(cur);
                cur = Vec::new();
                assert(seqs_of(out@) =~= before.push(cur_before));
            }
        } else {
            if i > 0 {
                assert(prev.last() == s@[i - 1]);
            }
            if i > 0 && !is_space_char(s[i - 1]) {
                let ghost w = before.push(cur_before);
                assert(w.update(w.len() - 1, w.last().push(c)) =~= before.push(cur_before.push(c)));
            } else {
                assert(cur_before.push(c) =~= seq![c]);
            }
            cur.push(c);
        }
        i += 1;
    }
    assert(s@.take(s.len() as int) == s@);
    if cur.len() > 0 {
        out.push(cur);
    }
    out
}

} // verus!

verus! {

/// The lower-case form of a string, as `str::to_lowercase` gives it.
pub uninterp spec fn lower_of(s: Seq<char>) -> Seq<char>;

/// Every character is ASCII.
pub open spec fn all_ascii(s: Seq<char>) -> bool {
    forall|i: int| 0 <= i < s.len() ==> (#[trigger] s[i] as u32) < 128
}

/// The ASCII lower-case form of a character: `A`..=`Z` become `a`..=`z`, all else is kept.
pub open spec fn ascii_lower_char(c: char) -> char {
    if 'A' <= c && c <= 'Z' {
        ((c as u32) + 32) as char
    } else {
        c
    }
}

/// The ASCII lower-case form of a text.
pub open spec fn ascii_lower(s: Seq<char>) -> Seq<char> {
    s.map_values(|c: char| ascii_lower_char(c))
}

/// Relies on str::to_lowercase: the lower-case form, which depends on the characters alone.
/// Unicode's lower-case mapping takes `A`..=`Z` to `a`..=`z` and leaves every other ASCII
/// character as it is, so on ASCII text the result is the ASCII lower-case form.
#[verifier::external_body]
pub(crate) fn to_lower(s: &str) -> (r: String)
    ensures
        r@ == lower_of(s@),
        all_ascii(s@) ==> r@ == ascii_lower(s@),
{
    s.to_lowercase()
}

/// Relies on String::push: appends one character at the end.
#[verifier::external_body]
pub(crate) fn push_char(s: &mut String, c: char)
    ensures
        final(s)@ == old(s)@.push(c),
{
    s.push(c)
}

/// A string holding the given characters.
pub fn string_of(v: &Vec<char>) -> (r: String)
    ensures
        r@ == v@,
{
    let mut r = String::new();
    let mut i: usize = 0;
    while i < v.len()
        invariant
            i <= v.len(),
            r@ == v@.take(i as int),
        decreases v.len() - i,
    {
        push_char(&mut r, v[i]);
        assert(v@.take(i + 1) =~= v@.take(i as int).push(v@[i as int]));
        i += 1;
    }
    assert(v@.take(v.len() as int) =~= v@);
    r
}

/// `s` begins with `p`.
pub open spec fn starts_with(s: Seq<char>, p: Seq<char>) -> bool {
    p.len() <= s.len() && s.take(p.len() as int) == p
}

/// Whether `s` begins with the literal `p`.
pub fn starts_with_str(s: &Vec<char>, p: &str) -> (r: bool)
    ensures
        r == starts_with(s@, p@),
{
    let pv = chars_of(p);
    if pv.len() > s.len() {
        return false;
    }
    let r = occurs_at_exec(s, &pv, 0);
    assert(s@.subrange(0, pv@.len() as int) == s@.take(pv@.len() as int));
    r
}

/// Whether two character vectors hold the same characters.
pub fn chars_eq(a: &Vec<char>, b: &Vec<char>) -> (r: bool)
    ensures
        r == (a@ == b@),
{
    if a.len() != b.len() {
        return false;
    }
    let mut i: usize = 0;
    while i < a.len()
        invariant
            i <= a.len(),
            a.len() == b.len(),
            forall|j: int| 0 <= j < i ==> a@[j] == b@[j],
        decreases a.len() - i,
    {
        if a[i] != b[i] {
            return false;
        }
        i += 1;
    }
    assert(a@ =~= b@);
    true
}

/// Whether `w` is one of the words of `list`.
pub fn has_word(list: &Vec<Vec<char>>, w: &Vec<char>) -> (r: bool)
    ensures
        r == seqs_of(list@).contains(w@),
{
    let mut i: usize = 0;
    while i < list.len()
        invariant
            i <= list.len(),
            forall|j: int| 0 <= j < i ==> list@[j]@ != w@,
        decreases list.len() - i,
    {
        if chars_eq(&list[i], w) {
            assert(seqs_of(list@)[i as int] == w@);
            return true;
        }
        i += 1;
    }
    assert forall|j: int| 0 <= j < seqs_of(list@).len() implies seqs_of(list@)[j] != w@ by {
        assert(seqs_of(list@)[j] == list@[j]@);
    }
    false
}

/// A non-space character ends a word, so such a text has at least one word.
pub proof fn lemma_words_open(s: Seq<char>)
    requires
        s.len() > 0,
        !is_space(s.last()),
    ensures
        words(s).len() > 0,
    decreases s.len(),
{
    let init = s.drop_last();
    let w = words(init);
    if init.len() > 0 && !is_space(init.last()) {
        lemma_words_open(init);
        assert(w.update(w.len() - 1, w.last().push(s.last())).len() == w.len());
    }
}

} // verus!

verus! {

/// Appends the characters of `t` to `s`.
pub fn append_str(s: &mut String, t: &str)
    ensures
        final(s)@ == old(s)@ + t@,
{
    let chars = chars_of(t);
    let ghost start = s@;
    let mut i: usize = 0;
    while i < chars.len()
        invariant
            i <= chars.len(),
            chars@ == t@,
            s@ == start + chars@.take(i as int),
        decreases chars.len() - i,
    {
        push_char(s, chars[i]);
        assert(chars@.take(i + 1) =~= chars@.take(i as int).push(chars@[i as int]));
        i += 1;
    }
    assert(chars@.take(chars@.len() as int) == chars@);
}

/// The decimal digits of `n`.
pub open spec fn decimal(n: nat) -> Seq<char>
    decreases n,
{
    if n < 10 {
        seq![((48 + n) as u8) as char]
    } else {
        decimal(n / 10).push(((48 + n % 10) as u8) as char)
    }
}

/// The decimal digits of `n`.
pub fn decimal_text(n: u64) -> (r: String)
    ensures
        r@ == decimal(n as nat),
    decreases n,
{
    if n < 10 {
        let mut r = String::new();
        push_char(&mut r, (48 + n as u8) as char);
        r
    } else {
        let mut r = decimal_text(n / 10);
        push_char(&mut r, (48 + (n % 10) as u8) as char);
        r
    }
}

} // verus!

verus! {

/// Words joined by single spaces.
pub open spec fn join_words(ws: Seq<Seq<char>>) -> Seq<char>
    decreases ws.len(),
{
    if ws.len() == 0 {
        seq![]
    } else if ws.len() == 1 {
        ws[0]
    } else {
        join_words(ws.drop_last()) + seq![' '] + ws.last()
    }
}

/// Every word is non-empty and holds no white space.
pub open spec fn clean_words(ws: Seq<Seq<char>>) -> bool {
    forall|j: int|
        0 <= j < ws.len() ==> (#[trigger] ws[j]).len() > 0 && forall|k: int|
            0 <= k < ws[j].len() ==> !is_space(#[trigger] ws[j][k])
}

/// White space in `s` is only single spaces between non-space characters: none leading, none
/// trailing, none repeated.
pub open spec fn collapsed(s: Seq<char>) -> bool {
    forall|i: int|
        0 <= i < s.len() && is_space(#[trigger] s[i]) ==> s[i] == ' ' && 0 < i && i + 1 < s.len()
            && !is_space(s[i - 1]) && !is_space(s[i + 1])
}

/// The words of any text are non-empty and hold no white space.
pub proof fn lemma_words_clean(s: Seq<char>)
    ensures
        clean_words(words(s)),
    decreases s.len(),
{
    if s.len() > 0 {
        let init = s.drop_last();
        let c = s.last();
        let w = words(init);
        lemma_words_clean(init);
        if !is_space(c) {
            if init.len() > 0 && !is_space(init.last()) {
                lemma_words_open(init);
                let u = w.update(w.len() - 1, w.last().push(c));
                assert forall|j: int| 0 <= j < u.len() implies (#[trigger] u[j]).len() > 0
                    && forall|k: int| 0 <= k < u[j].len() ==> !is_space(#[trigger] u[j][k]) by {
                    if j == w.len() - 1 {
                        assert(u[j] == w[j].push(c));
                        assert forall|k: int| 0 <= k < u[j].len() implies !is_space(
                            #[trigger] u[j][k],
                        ) by {
                            if k < w[j].len() {
                                assert(u[j][k] == w[j][k]);
                            }
                        }
                    } else {
                        assert(u[j] == w[j]);
                    }
                }
            } else {
                let u = w.push(seq![c]);
                assert forall|j: int| 0 <= j < u.len() implies (#[trigger] u[j]).len() > 0
                    && forall|k: int| 0 <= k < u[j].len() ==> !is_space(#[trigger] u[j][k]) by {
                    if j == w.len() {
                        assert(u[j] == seq![c]);
                    } else {
                        assert(u[j] == w[j]);
                    }
                }
            }
        }
    }
}

/// Joining clean words by single spaces leaves no leading, trailing or repeated white space.
pub proof fn lemma_join_collapsed(ws: Seq<Seq<char>>)
    requires
        clean_words(ws),
    ensures
        collapsed(join_words(ws)),
        ws.len() > 0 ==> join_words(ws).len() > 0 && !is_space(join_words(ws)[0]) && !is_space(
            join_words(ws).last(),
        ),
        ws.len() == 0 ==> join_words(ws).len() == 0,
    decreases ws.len(),
{
    if ws.len() == 1 {
        assert(ws[0].len() > 0);
        assert(!is_space(ws[0][0]));
        assert(!is_space(ws[0][ws[0].len() - 1]));
        assert forall|i: int| 0 <= i < ws[0].len() && is_space(#[trigger] ws[0][i]) implies false by {
        }
    } else if ws.len() > 1 {
        let init = ws.drop_last();
        assert(clean_words(init)) by {
            assert forall|j: int| 0 <= j < init.len() implies (#[trigger] init[j]).len() > 0
                && forall|k: int| 0 <= k < init[j].len() ==> !is_space(#[trigger] init[j][k]) by {
                assert(init[j] == ws[j]);
            }
        }
        lemma_join_collapsed(init);
        let a = join_words(init);
        let b = ws.last();
        assert(b == ws[ws.len() - 1]);
        assert(b.len() > 0);
        let s = join_words(ws);
        assert(s == a + seq![' '] + b);
        assert(s.len() == a.len() + 1 + b.len());
        assert(s[0] == a[0]);
        assert(s.last() == b[b.len() - 1]);
        assert(!is_space(b[b.len() - 1]));
        assert forall|i: int| 0 <= i < s.len() && is_space(#[trigger] s[i]) implies s[i] == ' '
            && 0 < i && i + 1 < s.len() && !is_space(s[i - 1]) && !is_space(s[i + 1]) by {
            if i < a.len() {
                assert(s[i] == a[i]);
                assert(is_space(a[i]));
                assert(i + 1 < a.len() ==> s[i + 1] == a[i + 1]);
                assert(i > 0 ==> s[i - 1] == a[i - 1]);
                assert(i + 1 < a.len()) by {
                    if i + 1 == a.len() {
                        assert(a[i] == a.last());
                    }
                }
            } else if i == a.len() {
                assert(s[i - 1] == a.last());
                assert(s[i + 1] == b[0]);
                assert(!is_space(b[0]));
            } else {
                assert(s[i] == b[i - a.len() - 1]);
                assert(!is_space(b[i - a.len() - 1]));
            }
        }
    }
}

/// Words joined by single spaces.
pub fn join_word_list(ws: &Vec<Vec<char>>) -> (r: Vec<char>)
    ensures
        r@ == join_words(seqs_of(ws@)),
{
    let mut r: Vec<char> = Vec::new();
    let mut k: usize = 0;
    while k < ws.len()
        invariant
            k <= ws.len(),
            r@ == join_words(seqs_of(ws@).take(k as int)),
        decreases ws.len() - k,
    {
        let ghost before = r@;
        assert(seqs_of(ws@).take(k + 1).drop_last() == seqs_of(ws@).take(k as int));
        assert(seqs_of(ws@).take(k + 1).last() == ws@[k as int]@);
        if k > 0 {
            r.push(' ');
        }
        let ghost mid = r@;
        let w = &ws[k];
        let mut i: usize = 0;
        while i < w.len()
            invariant
                i <= w.len(),
                r@ == mid + w@.take(i as int),
            decreases w.len() - i,
        {
            r.push(w[i]);
            assert(w@.take(i + 1) =~= w@.take(i as int).push(w@[i as int]));
            i += 1;
        }
        assert(w@.take(w@.len() as int) == w@);
        if k == 0 {
            assert(seqs_of(ws@).take(1)[0] == ws@[0]@);
            assert(r@ =~= join_words(seqs_of(ws@).take(1)));
        } else {
            assert(r@ =~= before + seq![' '] + ws@[k as int]@);
        }
        k += 1;
    }
    assert(seqs_of(ws@).take(ws.len() as int) == seqs_of(ws@));
    r
}

} // verus!
