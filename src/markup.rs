//! Text transformations of stored content: previews, entity decoding, and removal of the
//! document head.
use vstd::prelude::*;
use crate::text::{chars_of, occurs_at_exec, push_char, string_of};

verus! {

/// The preview of a content: the content itself when it has at most `max` characters, else
/// its first `max` characters followed by `...`.
pub open spec fn preview_of(content: Seq<char>, max: nat) -> Seq<char> {
    if content.len() <= max {
        content
    } else {
        content.take(max as int) + seq!['.', '.', '.']
    }
}

/// A short human preview of a content, cut at `max_chars` characters.
pub fn generate_preview(content: &str, max_chars: usize) -> (r: String)
    ensures
        r@ == preview_of(content@, max_chars as nat),
{
    let chars = chars_of(content);
    if chars.len() <= max_chars {
        return content.to_owned();
    }
    let mut head: Vec<char> = Vec::new();
    let mut i: usize = 0;
    while i < max_chars
        invariant
            i <= max_chars,
            max_chars < chars.len(),
            head@ == chars@.take(i as int),
        decreases max_chars - i,
    {
        head.push(chars[i]);
        assert(chars@.take(i + 1) =~= chars@.take(i as int).push(chars@[i as int]));
        i += 1;
    }
    let mut r = string_of(&head);
    push_char(&mut r, '.');
    push_char(&mut r, '.');
    push_char(&mut r, '.');
    assert(r@ =~= preview_of(content@, max_chars as nat));
    r
}

/// `s` with every occurrence of the non-empty `pat` replaced by `rep`, scanning left to right
/// without overlaps, as `str::replace` does.
pub open spec fn replaced(s: Seq<char>, pat: Seq<char>, rep: Seq<char>) -> Seq<char>
    decreases s.len(),
{
    if pat.len() == 0 || s.len() == 0 {
        s
    } else if pat.len() <= s.len() && s.take(pat.len() as int) == pat {
        rep + replaced(s.skip(pat.len() as int), pat, rep)
    } else {
        seq![s[0]] + replaced(s.skip(1), pat, rep)
    }
}

/// Replaces every occurrence of the non-empty literal `pat` in `s` by `rep`.
pub fn replace_chars(s: &Vec<char>, pat: &str, rep: &str) -> (r: Vec<char>)
    requires
        pat@.len() > 0,
    ensures
        r@ == replaced(s@, pat@, rep@),
{
    let p = chars_of(pat);
    let q = chars_of(rep);
    let mut out: Vec<char> = Vec::new();
    let mut i: usize = 0;
    assert(s@.skip(0) == s@);
    while i < s.len()
        invariant
            i <= s.len(),
            p@ == pat@,
            q@ == rep@,
            p@.len() > 0,
            replaced(s@, p@, q@) == out@ + replaced(s@.skip(i as int), p@, q@),
        decreases s.len() - i,
    {
        let ghost rest = s@.skip(i as int);
        if occurs_at_exec(s, &p, i) {
            assert(rest.take(p@.len() as int) == s@.subrange(i as int, i + p@.len()));
            assert(rest.skip(p@.len() as int) == s@.skip(i + p@.len()));
            let mut k: usize = 0;
            let ghost out0 = out@;
            while k < q.len()
                invariant
                    k <= q.len(),
                    out@ == out0 + q@.take(k as int),
                decreases q.len() - k,
            {
                out.push(q[k]);
                assert(q@.take(k + 1) =~= q@.take(k as int).push(q@[k as int]));
                k += 1;
            }
            assert(q@.take(q@.len() as int) == q@);
            assert(out0 + (q@ + replaced(s@.skip(i + p@.len()), p@, q@)) =~= out@ + replaced(
                s@.skip(i + p@.len()),
                p@,
                q@,
            ));
            i += p.len();
        } else {
            assert(p@.len() <= rest.len() ==> rest.take(p@.len() as int) == s@.subrange(
                i as int,
                i + p@.len(),
            ));
            assert(rest.skip(1) == s@.skip(i + 1));
            assert(rest[0] == s@[i as int]);
            let ghost out0 = out@;
            out.push(s[i]);
            assert(out0 + (seq![s@[i as int]] + replaced(s@.skip(i + 1), p@, q@)) =~= out@
                + replaced(s@.skip(i + 1), p@, q@));
            i += 1;
        }
    }
    assert(s@.skip(s@.len() as int) =~= Seq::<char>::empty());
    assert(out@ + Seq::<char>::empty() =~= out@);
    out
}

/// The entities that stored text and HTML are decoded from, in the order they are replaced.
pub open spec fn entities_decoded(s: Seq<char>) -> Seq<char> {
    let s1 = replaced(s, "&nbsp;"@, " "@);
    let s2 = replaced(s1, "&amp;"@, "&"@);
    let s3 = replaced(s2, "&lt;"@, "<"@);
    let s4 = replaced(s3, "&gt;"@, ">"@);
    let s5 = replaced(s4, "&quot;"@, "\""@);
    let s6 = replaced(s5, "&#39;"@, "'"@);
    let s7 = replaced(s6, "&#x27;"@, "'"@);
    let s8 = replaced(s7, "&#x2F;"@, "/"@);
    let s9 = replaced(s8, "&#x60;"@, "`"@);
    replaced(s9, "&#x3D;"@, "="@)
}

/// Decodes the common HTML entities of a stored text, one entity after the other.
pub fn decode_html_entities(text: &str) -> (r: String)
    ensures
        r@ == entities_decoded(text@),
{
    proof {
        reveal_strlit("&nbsp;");
        reveal_strlit("&amp;");
        reveal_strlit("&lt;");
        reveal_strlit("&gt;");
        reveal_strlit("&quot;");
        reveal_strlit("&#39;");
        reveal_strlit("&#x27;");
        reveal_strlit("&#x2F;");
        reveal_strlit("&#x60;");
        reveal_strlit("&#x3D;");
    }
    let s = chars_of(text);
    let s = replace_chars(&s, "&nbsp;", " ");
    let s = replace_chars(&s, "&amp;", "&");
    let s = replace_chars(&s, "&lt;", "<");
    let s = replace_chars(&s, "&gt;", ">");
    let s = replace_chars(&s, "&quot;", "\"");
    let s = replace_chars(&s, "&#39;", "'");
    let s = replace_chars(&s, "&#x27;", "'");
    let s = replace_chars(&s, "&#x2F;", "/");
    let s = replace_chars(&s, "&#x60;", "`");
    let s = replace_chars(&s, "&#x3D;", "=");
    string_of(&s)
}

} // verus!
