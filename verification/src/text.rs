//! Normalization of raw model output: trimming and removal of a single
//! wrapping Markdown code fence, so that the embedded JSON payload can be
//! handed to the deserializer.

use vstd::prelude::*;
use vstd::string::StrSliceExecFns;

verus! {

/// Characters treated as whitespace when trimming model output.
pub open spec fn is_ws_char(c: char) -> bool {
    c == ' ' || c == '\t' || c == '\n' || c == '\r' || c == '\u{b}' || c == '\u{c}'
}

/// Characters allowed in the language tag of a Markdown code fence.
pub open spec fn is_tag_char(c: char) -> bool {
    ||| 'a' as u32 <= c as u32 && c as u32 <= 'z' as u32
    ||| 'A' as u32 <= c as u32 && c as u32 <= 'Z' as u32
    ||| '0' as u32 <= c as u32 && c as u32 <= '9' as u32
    ||| c == '_'
}

/// Index of the first character at or after `i` that is not whitespace.
pub open spec fn scan_ws(s: Seq<char>, i: int) -> int
    recommends
        0 <= i <= s.len(),
    decreases s.len() - i when 0 <= i <= s.len()
{
    if i < s.len() && is_ws_char(s[i]) {
        scan_ws(s, i + 1)
    } else {
        i
    }
}

/// Index of the first character at or after `i` that is not a tag character.
pub open spec fn scan_tag(s: Seq<char>, i: int) -> int
    recommends
        0 <= i <= s.len(),
    decreases s.len() - i when 0 <= i <= s.len()
{
    if i < s.len() && is_tag_char(s[i]) {
        scan_tag(s, i + 1)
    } else {
        i
    }
}

/// Index just after the last whitespace run ending at `j`: the least `m`
/// such that every character in `[m, j)` is whitespace.
pub open spec fn scan_ws_back(s: Seq<char>, j: int) -> int
    recommends
        0 <= j <= s.len(),
    decreases j when 0 <= j <= s.len()
{
    if j > 0 && is_ws_char(s[j - 1]) {
        scan_ws_back(s, j - 1)
    } else {
        j
    }
}

/// The text with leading and trailing whitespace removed.
pub open spec fn trim_spec(t: Seq<char>) -> Seq<char> {
    let lo = scan_ws(t, 0);
    let hi = scan_ws_back(t, t.len() as int);
    if lo <= hi {
        t.subrange(lo, hi)
    } else {
        Seq::empty()
    }
}

/// Whether the text begins with a three-backtick fence marker.
pub open spec fn starts_with_fence(s: Seq<char>) -> bool {
    s.len() >= 3 && s[0] == '`' && s[1] == '`' && s[2] == '`'
}

/// Whether the text ends with a three-backtick fence marker.
pub open spec fn ends_with_fence(s: Seq<char>) -> bool {
    s.len() >= 3 && s[s.len() - 3] == '`' && s[s.len() - 2] == '`' && s[s.len() - 1] == '`'
}

/// Index just past the leading fence: the three backticks, an optional
/// language tag, and any whitespace that follows them.
pub open spec fn leading_fence_end(s: Seq<char>) -> int
    recommends
        starts_with_fence(s),
{
    scan_ws(s, scan_tag(s, 3))
}

/// The text with its leading fence removed.
pub open spec fn strip_leading_fence(s: Seq<char>) -> Seq<char>
    recommends
        starts_with_fence(s),
{
    s.subrange(leading_fence_end(s), s.len() as int)
}

/// The text with a trailing fence, and the whitespace before it, removed,
/// where such a fence is present; otherwise the text unchanged.
pub open spec fn strip_trailing_fence(s: Seq<char>) -> Seq<char> {
    if ends_with_fence(s) {
        s.subrange(0, scan_ws_back(s, s.len() - 3))
    } else {
        s
    }
}

/// What `normalize` returns: the trimmed text, with a single wrapping
/// Markdown code fence removed where the trimmed text both begins and
/// ends with a fence marker. Text that carries a fence marker on one
/// side only is left as it is.
pub open spec fn normalize_spec(t: Seq<char>) -> Seq<char> {
    let s = trim_spec(t);
    if starts_with_fence(s) && ends_with_fence(s) {
        strip_trailing_fence(strip_leading_fence(s))
    } else {
        s
    }
}

proof fn lemma_scan_ws_props(s: Seq<char>, i: int)
    requires
        0 <= i <= s.len(),
    ensures
        i <= scan_ws(s, i) <= s.len(),
        forall|k: int| i <= k < scan_ws(s, i) ==> is_ws_char(s[k]),
        scan_ws(s, i) < s.len() ==> !is_ws_char(s[scan_ws(s, i)]),
    decreases s.len() - i,
{
    if i < s.len() && is_ws_char(s[i]) {
        lemma_scan_ws_props(s, i + 1);
    }
}

proof fn lemma_scan_ws_unique(s: Seq<char>, i: int, m: int)
    requires
        0 <= i <= m <= s.len(),
        forall|k: int| i <= k < m ==> is_ws_char(s[k]),
        m == s.len() || !is_ws_char(s[m]),
    ensures
        scan_ws(s, i) == m,
    decreases m - i,
{
    if i < m {
        lemma_scan_ws_unique(s, i + 1, m);
    }
}

proof fn lemma_scan_tag_props(s: Seq<char>, i: int)
    requires
        0 <= i <= s.len(),
    ensures
        i <= scan_tag(s, i) <= s.len(),
    decreases s.len() - i,
{
    if i < s.len() && is_tag_char(s[i]) {
        lemma_scan_tag_props(s, i + 1);
    }
}

proof fn lemma_scan_tag_unique(s: Seq<char>, i: int, m: int)
    requires
        0 <= i <= m <= s.len(),
        forall|k: int| i <= k < m ==> is_tag_char(s[k]),
        m == s.len() || !is_tag_char(s[m]),
    ensures
        scan_tag(s, i) == m,
    decreases m - i,
{
    if i < m {
        lemma_scan_tag_unique(s, i + 1, m);
    }
}

proof fn lemma_scan_ws_back_props(s: Seq<char>, j: int)
    requires
        0 <= j <= s.len(),
    ensures
        0 <= scan_ws_back(s, j) <= j,
        forall|k: int| scan_ws_back(s, j) <= k < j ==> is_ws_char(s[k]),
        scan_ws_back(s, j) > 0 ==> !is_ws_char(s[scan_ws_back(s, j) - 1]),
    decreases j,
{
    if j > 0 && is_ws_char(s[j - 1]) {
        lemma_scan_ws_back_props(s, j - 1);
    }
}

proof fn lemma_scan_ws_back_unique(s: Seq<char>, j: int, m: int)
    requires
        0 <= m <= j <= s.len(),
        forall|k: int| m <= k < j ==> is_ws_char(s[k]),
        m == 0 || !is_ws_char(s[m - 1]),
    ensures
        scan_ws_back(s, j) == m,
    decreases j - m,
{
    if m < j {
        lemma_scan_ws_back_unique(s, j - 1, m);
    }
}

/// The trimmed text neither begins nor ends with whitespace.
proof fn lemma_trim_spec_ends(t: Seq<char>)
    ensures
        trim_spec(t).len() > 0 ==> !is_ws_char(trim_spec(t)[0]),
        trim_spec(t).len() > 0 ==> !is_ws_char(trim_spec(t)[trim_spec(t).len() - 1]),
{
    lemma_scan_ws_props(t, 0);
    lemma_scan_ws_back_props(t, t.len() as int);
}

/// Trimming a text whose ends are not whitespace changes nothing.
proof fn lemma_trim_noop(s: Seq<char>)
    requires
        s.len() > 0 ==> !is_ws_char(s[0]),
        s.len() > 0 ==> !is_ws_char(s[s.len() - 1]),
    ensures
        trim_spec(s) == s,
{
    assert(scan_ws(s, 0) == 0);
    assert(scan_ws_back(s, s.len() as int) == s.len());
    assert(trim_spec(s) =~= s);
}

/// The normalized text neither begins nor ends with whitespace.
proof fn lemma_normalize_spec_ends(t: Seq<char>)
    ensures
        normalize_spec(t).len() > 0 ==> !is_ws_char(normalize_spec(t)[0]),
        normalize_spec(t).len() > 0 ==> !is_ws_char(
            normalize_spec(t)[normalize_spec(t).len() - 1],
        ),
{
    let s = trim_spec(t);
    lemma_trim_spec_ends(t);
    if starts_with_fence(s) && ends_with_fence(s) {
        lemma_scan_tag_props(s, 3);
        lemma_scan_ws_props(s, scan_tag(s, 3));
        let s1 = strip_leading_fence(s);
        if ends_with_fence(s1) {
            lemma_scan_ws_back_props(s1, s1.len() - 3);
        } else {
            if s1.len() > 0 {
                assert(s1[s1.len() - 1] == s[s.len() - 1]);
                assert(!is_ws_char('`'));
            }
        }
    }
}

/// Normalization is idempotent: a second pass over the normalized text
/// changes nothing. The one family of inputs left out is those whose
/// normalized form itself both begins and ends with a fence marker
/// (nested fence markers can leave such a remainder), which a second
/// pass would strip again.
pub proof fn lemma_normalize_idempotent(t: Seq<char>)
    requires
        !(starts_with_fence(normalize_spec(t)) && ends_with_fence(normalize_spec(t))),
    ensures
        normalize_spec(normalize_spec(t)) == normalize_spec(t),
{
    lemma_normalize_spec_ends(t);
    lemma_trim_noop(normalize_spec(t));
}

/// Only a whole wrapping fence pair is stripped: where the trimmed text
/// carries a fence marker at one end but not at both, normalization only
/// trims and every fence marker is left in place.
pub proof fn lemma_unmatched_fence_untouched(t: Seq<char>)
    requires
        !(starts_with_fence(trim_spec(t)) && ends_with_fence(trim_spec(t))),
    ensures
        normalize_spec(t) == trim_spec(t),
{
}

/// Exec test for `is_ws_char`.
fn ws_char(c: char) -> (r: bool)
    ensures
        r == is_ws_char(c),
{
    c == ' ' || c == '\t' || c == '\n' || c == '\r' || c == '\u{b}' || c == '\u{c}'
}

/// Exec test for `is_tag_char`.
fn tag_char(c: char) -> (r: bool)
    ensures
        r == is_tag_char(c),
{
    let u = c as u32;
    ('a' as u32 <= u && u <= 'z' as u32) || ('A' as u32 <= u && u <= 'Z' as u32) || ('0' as u32
        <= u && u <= '9' as u32) || c == '_'
}

/// Collects the characters of a string slice into a vector.
pub(crate) fn chars_of(text: &str) -> (v: Vec<char>)
    ensures
        v@ == text@,
{
    let n: usize = text.unicode_len();
    let mut v: Vec<char> = Vec::new();
    let mut i: usize = 0;
    while i < n
        invariant
            i <= n,
            n == text@.len(),
            v@ == text@.subrange(0, i as int),
        decreases n - i,
    {
        let c = text.get_char(i);
        v.push(c);
        proof {
            assert(v@ =~= text@.subrange(0, i + 1 as int));
        }
        i = i + 1;
    }
    proof {
        assert(text@.subrange(0, n as int) =~= text@);
    }
    v
}

/// Strips incidental Markdown code-fence wrapping from raw model output.
///
/// The text is trimmed; then, where the trimmed text both begins and ends
/// with a three-backtick fence marker, one leading fence (backticks,
/// optional language tag, following whitespace) and one trailing fence
/// (preceding whitespace and backticks) are removed. Stray backticks that
/// do not form a whole wrapping pair are passed through unchanged. The
/// result is not checked for JSON well-formedness here.
pub fn normalize(text: &str) -> (r: String)
    ensures
        r@ == normalize_spec(text@),
{
    let ghost t = text@;
    let v = chars_of(text);
    let n: usize = v.len();

    // Trim: find the first and last non-whitespace characters.
    let mut lo: usize = 0;
    while lo < n && ws_char(v[lo])
        invariant
            lo <= n,
            n == t.len(),
            v@ == t,
            forall|k: int| 0 <= k < lo ==> is_ws_char(t[k]),
        decreases n - lo,
    {
        lo = lo + 1;
    }
    let mut hi: usize = n;
    while hi > lo && ws_char(v[hi - 1])
        invariant
            lo <= hi <= n,
            n == t.len(),
            v@ == t,
            forall|k: int| hi <= k < n ==> is_ws_char(t[k]),
        decreases hi,
    {
        hi = hi - 1;
    }
    proof {
        lemma_scan_ws_unique(t, 0, lo as int);
        if hi == lo {
            // Everything from `lo` on is whitespace, so the text is all
            // whitespace up to `lo` and the trimmed text is empty.
            if lo == 0 {
                lemma_scan_ws_back_unique(t, t.len() as int, 0);
            } else {
                lemma_scan_ws_back_props(t, t.len() as int);
                assert(trim_spec(t) =~= t.subrange(lo as int, hi as int)) by {
                    let m = scan_ws_back(t, t.len() as int);
                    if scan_ws(t, 0) <= m {
                        assert(forall|k: int| m <= k < t.len() ==> is_ws_char(t[k]));
                        assert(forall|k: int| 0 <= k < lo ==> is_ws_char(t[k]));
                        assert(forall|k: int|
                            scan_ws(t, 0) <= k < m ==> #[trigger] is_ws_char(t[k])) by {
                            assert(forall|k: int| lo <= k < t.len() ==> is_ws_char(t[k]));
                        }
                    }
                }
            }
        } else {
            lemma_scan_ws_back_unique(t, t.len() as int, hi as int);
        }
        assert(trim_spec(t) =~= t.subrange(lo as int, hi as int));
    }
    let ghost s = t.subrange(lo as int, hi as int);

    // A wrapping fence pair is stripped only when the trimmed text both
    // begins and ends with a fence marker.
    let fenced = hi - lo >= 3 && v[lo] == '`' && v[lo + 1] == '`' && v[lo + 2] == '`' && v[hi - 3]
        == '`' && v[hi - 2] == '`' && v[hi - 1] == '`';
    proof {
        assert(fenced == (starts_with_fence(s) && ends_with_fence(s)));
    }
    if !fenced {
        let out = text.substring_char(lo, hi);
        return out.to_owned();
    }

    // Leading fence: three backticks, a language tag, trailing whitespace.
    let mut p: usize = lo + 3;
    while p < hi && tag_char(v[p])
        invariant
            lo + 3 <= p <= hi <= n,
            n == t.len(),
            v@ == t,
            s == t.subrange(lo as int, hi as int),
            forall|k: int| 3 <= k < p - lo ==> is_tag_char(s[k]),
        decreases hi - p,
    {
        p = p + 1;
    }
    proof {
        lemma_scan_tag_unique(s, 3, p - lo);
    }
    let ghost tag_end = (p - lo) as int;
    while p < hi && ws_char(v[p])
        invariant
            lo + 3 <= p <= hi <= n,
            n == t.len(),
            v@ == t,
            s == t.subrange(lo as int, hi as int),
            tag_end == scan_tag(s, 3),
            tag_end <= p - lo,
            forall|k: int| tag_end <= k < p - lo ==> is_ws_char(s[k]),
        decreases hi - p,
    {
        p = p + 1;
    }
    proof {
        lemma_scan_tag_props(s, 3);
        lemma_scan_ws_unique(s, tag_end, p - lo);
        assert(leading_fence_end(s) == p - lo);
        assert(strip_leading_fence(s) =~= t.subrange(p as int, hi as int));
    }
    let ghost s1 = t.subrange(p as int, hi as int);

    if hi - p >= 3 {
        // The remainder still ends with the trailing fence of the pair:
        // drop it and the whitespace before it.
        proof {
            assert(ends_with_fence(s1));
        }
        let mut q: usize = hi - 3;
        while q > p && ws_char(v[q - 1])
            invariant
                p <= q <= hi - 3,
                hi <= n,
                n == t.len(),
                v@ == t,
                s1 == t.subrange(p as int, hi as int),
                forall|k: int| q - p <= k < hi - 3 - p ==> is_ws_char(s1[k]),
            decreases q,
        {
            q = q - 1;
        }
        proof {
            lemma_scan_ws_back_unique(s1, s1.len() - 3, (q - p) as int);
            assert(strip_trailing_fence(s1) =~= t.subrange(p as int, q as int));
        }
        let out = text.substring_char(p, q);
        out.to_owned()
    } else {
        // The leading fence consumed everything up to (or into) the
        // trailing backticks; nothing remains to strip.
        proof {
            assert(!ends_with_fence(s1));
        }
        let out = text.substring_char(p, hi);
        out.to_owned()
    }
}

} // verus!
