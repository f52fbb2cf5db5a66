//! Character-sequence utilities shared by the renderers: conversion between
//! strings and character vectors, pattern replacement, and trimming.

use vstd::prelude::*;
use vstd::string::*;

verus! {

broadcast use vstd::string::group_string_axioms;

/// The characters of `s`, in order.
pub fn chars_of(s: &str) -> (v: Vec<char>)
    ensures
        v@ == s@,
{
    let mut v: Vec<char> = Vec::new();
    for c in it: s.chars()
        invariant
            it.seq() == s@,
            v@ == it.seq().take(it.index()),
    {
        v.push(c);
        proof {
            assert(it.seq().take(it.index() + 1) =~= v@);
        }
    }
    proof {
        assert(v@ =~= s@);
    }
    v
}

/// Appends one character to `s` (std's `String::push`, which the
/// documentation describes as appending the given char to the end).
#[verifier::external_body]
pub(crate) fn push_char(s: &mut String, c: char)
    ensures
        final(s)@ == old(s)@.push(c),
{
    s.push(c);
}

/// Appends every character of `chars` to `s`, in order.
pub fn push_chars(s: &mut String, chars: &Vec<char>)
    ensures
        final(s)@ == old(s)@ + chars@,
{
    let ghost start = s@;
    for i in 0..chars.len()
        invariant
            s@ == start + chars@.take(i as int),
    {
        push_char(s, chars[i]);
        proof {
            assert(chars@.take(i + 1) =~= chars@.take(i as int).push(chars@[i as int]));
        }
    }
    proof {
        assert(chars@.take(chars@.len() as int) =~= chars@);
    }
}

/// The string holding exactly `chars`.
pub fn string_of(chars: &Vec<char>) -> (s: String)
    ensures
        s@ == chars@,
{
    let mut s = String::new();
    push_chars(&mut s, chars);
    s
}

/// Appends every element of `src` to `dst`, in order.
pub fn extend_chars(dst: &mut Vec<char>, src: &Vec<char>)
    ensures
        final(dst)@ == old(dst)@ + src@,
{
    let ghost start = dst@;
    for i in 0..src.len()
        invariant
            dst@ == start + src@.take(i as int),
    {
        dst.push(src[i]);
        proof {
            assert(src@.take(i + 1) =~= src@.take(i as int).push(src@[i as int]));
        }
    }
    proof {
        assert(src@.take(src@.len() as int) =~= src@);
    }
}

/// Whether `pat` occurs in `s` starting at position `i`.
pub open spec fn occurs_at(s: Seq<char>, i: int, pat: Seq<char>) -> bool {
    0 <= i && i + pat.len() <= s.len() && s.subrange(i, i + pat.len()) == pat
}

/// Whether `pat` occurs anywhere in `s`.
pub open spec fn contains_seq(s: Seq<char>, pat: Seq<char>) -> bool {
    exists|i: int| occurs_at(s, i, pat)
}

/// `s` with every occurrence of the non-empty `pat` replaced by `rep`, scanning
/// from the left and never letting two replaced occurrences overlap (the
/// meaning of `str::replace`).
pub open spec fn replace_all(s: Seq<char>, pat: Seq<char>, rep: Seq<char>) -> Seq<char>
    recommends
        pat.len() > 0,
    decreases s.len(),
{
    if s.len() == 0 || pat.len() == 0 {
        s
    } else if occurs_at(s, 0, pat) {
        rep + replace_all(s.skip(pat.len() as int), pat, rep)
    } else {
        seq![s[0]] + replace_all(s.skip(1), pat, rep)
    }
}

/// Whether `pat` occurs in `s` at position `i`.
pub fn matches_at(s: &Vec<char>, i: usize, pat: &Vec<char>) -> (r: bool)
    requires
        i <= s.len(),
    ensures
        r == occurs_at(s@, i as int, pat@),
{
    if pat.len() > s.len() - i {
        return false;
    }
    let mut k: usize = 0;
    while k < pat.len()
        invariant
            i + pat.len() <= s.len(),
            k <= pat.len(),
            forall|j: int| 0 <= j < k ==> s@[i + j] == pat@[j],
        decreases pat.len() - k,
    {
        if s[i + k] != pat[k] {
            proof {
                assert(s@.subrange(i as int, i + pat.len())[k as int] != pat@[k as int]);
            }
            return false;
        }
        k = k + 1;
    }
    proof {
        assert(s@.subrange(i as int, i + pat.len()) =~= pat@);
    }
    true
}

/// `s` with every occurrence of `pat` replaced by `rep` (see `replace_all`).
pub fn replace_chars(s: &Vec<char>, pat: &Vec<char>, rep: &Vec<char>) -> (r: Vec<char>)
    requires
        pat.len() > 0,
    ensures
        r@ == replace_all(s@, pat@, rep@),
{
    let mut out: Vec<char> = Vec::new();
    let mut i: usize = 0;
    proof {
        assert(s@.skip(0) =~= s@);
    }
    while i < s.len()
        invariant
            i <= s.len(),
            pat.len() > 0,
            replace_all(s@, pat@, rep@) == out@ + replace_all(s@.skip(i as int), pat@, rep@),
        decreases s.len() - i,
    {
        let ghost rest = s@.skip(i as int);
        if matches_at(s, i, pat) {
            proof {
                assert(rest.subrange(0, pat@.len() as int) =~= s@.subrange(i as int, i + pat@.len()));
                assert(rest.skip(pat@.len() as int) =~= s@.skip(i + pat@.len()));
            }
            extend_chars(&mut out, rep);
            i = i + pat.len();
        } else {
            proof {
                if occurs_at(rest, 0, pat@) {
                    assert(rest.subrange(0, pat@.len() as int) =~= s@.subrange(i as int, i + pat@.len()));
                }
                assert(rest.skip(1) =~= s@.skip(i + 1));
            }
            out.push(s[i]);
            i = i + 1;
        }
    }
    proof {
        assert(s@.skip(i as int) =~= Seq::<char>::empty());
    }
    out
}

/// An occurrence inside `b` is an occurrence inside `a + b + c`, shifted by `a`.
pub proof fn lemma_occurs_within(a: Seq<char>, b: Seq<char>, c: Seq<char>, k: int, pat: Seq<char>)
    requires
        occurs_at(b, k, pat),
    ensures
        occurs_at(a + b + c, a.len() + k, pat),
        contains_seq(a + b + c, pat),
{
    assert((a + b + c).subrange(a.len() + k, a.len() + k + pat.len()) =~= b.subrange(
        k,
        k + pat.len(),
    ));
}

/// The characters of an occurrence are those of the pattern.
pub proof fn lemma_occurrence_chars(s: Seq<char>, i: int, pat: Seq<char>)
    requires
        occurs_at(s, i, pat),
    ensures
        forall|k: int| 0 <= k < pat.len() ==> s[i + k] == #[trigger] pat[k],
{
    assert forall|k: int| 0 <= k < pat.len() implies s[i + k] == #[trigger] pat[k] by {
        assert(s.subrange(i, i + pat.len())[k] == s[i + k]);
    }
}

/// When no occurrence of `pat` in `x + z` starts inside `x`, replacing in
/// `x + z` keeps `x` and replaces in `z`.
pub proof fn lemma_replace_after_prefix(x: Seq<char>, z: Seq<char>, pat: Seq<char>, rep: Seq<char>)
    requires
        pat.len() > 0,
        forall|i: int| 0 <= i < x.len() ==> !occurs_at(x + z, i, pat),
    ensures
        replace_all(x + z, pat, rep) == x + replace_all(z, pat, rep),
    decreases x.len(),
{
    if x.len() > 0 {
        let s = x + z;
        assert(!occurs_at(s, 0, pat));
        assert(s.skip(1) =~= x.skip(1) + z);
        assert forall|i: int| 0 <= i < x.skip(1).len() implies !occurs_at(x.skip(1) + z, i, pat) by {
            assert(!occurs_at(s, i + 1, pat));
            if occurs_at(x.skip(1) + z, i, pat) {
                assert((x.skip(1) + z).subrange(i, i + pat.len()) =~= s.subrange(
                    i + 1,
                    i + 1 + pat.len(),
                ));
            }
        }
        lemma_replace_after_prefix(x.skip(1), z, pat, rep);
        assert(seq![x[0]] + (x.skip(1) + replace_all(z, pat, rep)) =~= x + replace_all(
            z,
            pat,
            rep,
        ));
    } else {
        assert(x + z =~= z);
    }
}

/// An occurrence at the very start is replaced.
pub proof fn lemma_replace_leading(z: Seq<char>, pat: Seq<char>, rep: Seq<char>)
    requires
        pat.len() > 0,
    ensures
        replace_all(pat + z, pat, rep) == rep + replace_all(z, pat, rep),
{
    let s = pat + z;
    assert(s.subrange(0, pat.len() as int) =~= pat);
    assert(s.skip(pat.len() as int) =~= z);
}

/// Replacing a pattern that does not occur leaves the sequence unchanged.
pub proof fn lemma_replace_absent(s: Seq<char>, pat: Seq<char>, rep: Seq<char>)
    requires
        !contains_seq(s, pat),
    ensures
        replace_all(s, pat, rep) == s,
    decreases s.len(),
{
    if s.len() > 0 && pat.len() > 0 {
        assert(!occurs_at(s, 0, pat));
        assert forall|i: int| !occurs_at(s.skip(1), i, pat) by {
            if occurs_at(s.skip(1), i, pat) {
                assert(s.skip(1).subrange(i, i + pat.len()) =~= s.subrange(i + 1, i + 1 + pat.len()));
                assert(occurs_at(s, i + 1, pat));
            }
        }
        lemma_replace_absent(s.skip(1), pat, rep);
        assert(seq![s[0]] + s.skip(1) =~= s);
    }
}

/// Replacing in `x + y` is replacing in `x` and in `y` separately, when no
/// occurrence of `pat` straddles the seam.
pub proof fn lemma_replace_split(x: Seq<char>, y: Seq<char>, pat: Seq<char>, rep: Seq<char>)
    requires
        pat.len() > 0,
        forall|i: int| 0 <= i < x.len() < i + pat.len() ==> !occurs_at(x + y, i, pat),
    ensures
        replace_all(x + y, pat, rep) == replace_all(x, pat, rep) + replace_all(y, pat, rep),
    decreases x.len(),
{
    let s = x + y;
    let n = pat.len() as int;
    if x.len() == 0 {
        assert(s =~= y);
        assert(replace_all(x, pat, rep) =~= Seq::<char>::empty());
    } else {
        let m: int = if occurs_at(s, 0, pat) {
            n
        } else {
            1
        };
        if occurs_at(s, 0, pat) {
            assert(n <= x.len());
            assert(x.subrange(0, n) =~= s.subrange(0, n));
        } else if occurs_at(x, 0, pat) {
            assert(x.subrange(0, n) =~= s.subrange(0, n));
        }
        let x2 = x.skip(m);
        assert(s.skip(m) =~= x2 + y);
        assert forall|i: int| 0 <= i < x2.len() < i + n implies !occurs_at(x2 + y, i, pat) by {
            assert(!occurs_at(s, i + m, pat));
            if occurs_at(x2 + y, i, pat) {
                assert((x2 + y).subrange(i, i + n) =~= s.subrange(i + m, i + m + n));
            }
        }
        lemma_replace_split(x2, y, pat, rep);
        let a = replace_all(x2, pat, rep);
        let b = replace_all(y, pat, rep);
        if occurs_at(s, 0, pat) {
            assert(rep + (a + b) =~= (rep + a) + b);
        } else {
            assert(s[0] == x[0]);
            assert(seq![x[0]] + (a + b) =~= (seq![x[0]] + a) + b);
        }
    }
}

/// Replacing with text that lacks `c` keeps `c` out of text that lacks it.
pub proof fn lemma_replace_keeps_absent(s: Seq<char>, pat: Seq<char>, rep: Seq<char>, c: char)
    requires
        pat.len() > 0,
        !s.contains(c),
        !rep.contains(c),
    ensures
        !replace_all(s, pat, rep).contains(c),
    decreases s.len(),
{
    if s.len() > 0 {
        let n: int = if occurs_at(s, 0, pat) {
            pat.len() as int
        } else {
            1
        };
        let t = s.skip(n);
        assert(!t.contains(c)) by {
            if t.contains(c) {
                let j = choose|j: int| 0 <= j < t.len() && t[j] == c;
                assert(s[j + n] == c);
            }
        }
        lemma_replace_keeps_absent(t, pat, rep, c);
        let rt = replace_all(t, pat, rep);
        let first = if occurs_at(s, 0, pat) {
            rep
        } else {
            seq![s[0]]
        };
        let r = replace_all(s, pat, rep);
        assert(r == first + rt);
        if r.contains(c) {
            let i = choose|i: int| 0 <= i < r.len() && r[i] == c;
            if i < first.len() {
                assert(first[i] == c);
                if !occurs_at(s, 0, pat) {
                    assert(s[0] == c);
                }
            } else {
                assert(rt[i - first.len()] == c);
            }
        }
    }
}

/// Unicode `White_Space` (the property that `char::is_whitespace` tests).
pub open spec fn is_white_space(c: char) -> bool {
    ||| ('\u{9}' <= c && c <= '\u{d}')
    ||| c == ' '
    ||| c == '\u{85}'
    ||| c == '\u{a0}'
    ||| c == '\u{1680}'
    ||| ('\u{2000}' <= c && c <= '\u{200a}')
    ||| c == '\u{2028}'
    ||| c == '\u{2029}'
    ||| c == '\u{202f}'
    ||| c == '\u{205f}'
    ||| c == '\u{3000}'
}

/// Whether `c` is Unicode white space.
pub fn white_space(c: char) -> (r: bool)
    ensures
        r == is_white_space(c),
{
    ('\u{9}' <= c && c <= '\u{d}') || c == ' ' || c == '\u{85}' || c == '\u{a0}' || c
        == '\u{1680}' || ('\u{2000}' <= c && c <= '\u{200a}') || c == '\u{2028}' || c
        == '\u{2029}' || c == '\u{202f}' || c == '\u{205f}' || c == '\u{3000}'
}

/// The characters that a trim removes from both ends of a sequence.
pub enum TrimSet {
    /// Only the line feed `'\n'` (`trim_matches('\n')`).
    LineFeeds,
    /// Unicode white space (`trim()`).
    WhiteSpace,
}

/// Whether `c` belongs to `set`.
pub open spec fn in_trim_set(set: TrimSet, c: char) -> bool {
    match set {
        TrimSet::LineFeeds => c == '\n',
        TrimSet::WhiteSpace => is_white_space(c),
    }
}

/// Whether `c` belongs to `set`.
pub fn trim_set_contains(set: &TrimSet, c: char) -> (r: bool)
    ensures
        r == in_trim_set(*set, c),
{
    match set {
        TrimSet::LineFeeds => c == '\n',
        TrimSet::WhiteSpace => white_space(c),
    }
}

/// `s` without its leading characters from `set`.
pub open spec fn trim_start(s: Seq<char>, set: TrimSet) -> Seq<char>
    decreases s.len(),
{
    if s.len() > 0 && in_trim_set(set, s[0]) {
        trim_start(s.drop_first(), set)
    } else {
        s
    }
}

/// `s` without its trailing characters from `set`.
pub open spec fn trim_end(s: Seq<char>, set: TrimSet) -> Seq<char>
    decreases s.len(),
{
    if s.len() > 0 && in_trim_set(set, s.last()) {
        trim_end(s.drop_last(), set)
    } else {
        s
    }
}

/// `s` without the characters from `set` at either end.
pub open spec fn trim(s: Seq<char>, set: TrimSet) -> Seq<char> {
    trim_end(trim_start(s, set), set)
}

/// Trimming the start of `z + w` trims the start of `z`, and only reaches into
/// `w` when all of `z` is trimmed away.
pub proof fn lemma_trim_start_append(z: Seq<char>, w: Seq<char>, set: TrimSet)
    ensures
        trim_start(z + w, set) == if trim_start(z, set).len() > 0 {
            trim_start(z, set) + w
        } else {
            trim_start(w, set)
        },
    decreases z.len(),
{
    if z.len() == 0 {
        assert(z + w =~= w);
    } else if in_trim_set(set, z[0]) {
        assert((z + w).drop_first() =~= z.drop_first() + w);
        lemma_trim_start_append(z.drop_first(), w, set);
    } else {
        assert((z + w)[0] == z[0]);
    }
}

/// `trim_start` drops exactly the leading run of characters from `set`.
pub proof fn lemma_trim_start_at(s: Seq<char>, set: TrimSet, lo: int)
    requires
        0 <= lo <= s.len(),
        forall|j: int| 0 <= j < lo ==> in_trim_set(set, #[trigger] s[j]),
        lo < s.len() ==> !in_trim_set(set, s[lo]),
    ensures
        trim_start(s, set) == s.skip(lo),
    decreases lo,
{
    if lo > 0 {
        assert forall|j: int| 0 <= j < lo - 1 implies in_trim_set(set, #[trigger] s.drop_first()[j]) by {
            assert(s.drop_first()[j] == s[j + 1]);
        }
        lemma_trim_start_at(s.drop_first(), set, lo - 1);
        assert(s.drop_first().skip(lo - 1) =~= s.skip(lo));
    } else {
        assert(s.skip(0) =~= s);
    }
}

/// `trim_end` drops exactly the trailing run of characters from `set`.
pub proof fn lemma_trim_end_at(s: Seq<char>, set: TrimSet, hi: int)
    requires
        0 <= hi <= s.len(),
        forall|j: int| hi <= j < s.len() ==> in_trim_set(set, #[trigger] s[j]),
        hi > 0 ==> !in_trim_set(set, s[hi - 1]),
    ensures
        trim_end(s, set) == s.take(hi),
    decreases s.len() - hi,
{
    if hi < s.len() {
        assert forall|j: int| hi <= j < s.drop_last().len() implies in_trim_set(
            set,
            #[trigger] s.drop_last()[j],
        ) by {
            assert(s.drop_last()[j] == s[j]);
        }
        lemma_trim_end_at(s.drop_last(), set, hi);
        assert(s.drop_last().take(hi) =~= s.take(hi));
    } else {
        assert(s.take(hi) =~= s);
    }
}

/// A trimmed sequence neither starts nor ends with a character from `set`.
pub proof fn lemma_trim_edges(s: Seq<char>, set: TrimSet)
    ensures
        trim_start(s, set).len() > 0 ==> !in_trim_set(set, trim_start(s, set)[0]),
        trim(s, set).len() > 0 ==> !in_trim_set(set, trim(s, set)[0]),
        trim(s, set).len() > 0 ==> !in_trim_set(set, trim(s, set).last()),
    decreases s.len(),
{
    if s.len() > 0 && in_trim_set(set, s[0]) {
        lemma_trim_edges(s.drop_first(), set);
    }
    lemma_trim_end_edges(trim_start(s, set), set);
}

/// `trim_end` leaves a sequence that is empty or starts as before and does not
/// end with a character from `set`.
proof fn lemma_trim_end_edges(s: Seq<char>, set: TrimSet)
    ensures
        trim_end(s, set).len() > 0 ==> !in_trim_set(set, trim_end(s, set).last()),
        trim_end(s, set).len() > 0 ==> trim_end(s, set)[0] == s[0],
        trim_end(s, set).len() <= s.len(),
    decreases s.len(),
{
    if s.len() > 0 && in_trim_set(set, s.last()) {
        lemma_trim_end_edges(s.drop_last(), set);
    }
}

/// `s` without the characters from `set` at either end.
pub fn trim_chars(s: &Vec<char>, set: TrimSet) -> (r: Vec<char>)
    ensures
        r@ == trim(s@, set),
{
    let mut lo: usize = 0;
    while lo < s.len() && trim_set_contains(&set, s[lo])
        invariant
            lo <= s.len(),
            forall|j: int| 0 <= j < lo ==> in_trim_set(set, #[trigger] s@[j]),
        decreases s.len() - lo,
    {
        lo = lo + 1;
    }
    let mut hi: usize = s.len();
    while hi > lo && trim_set_contains(&set, s[hi - 1])
        invariant
            lo <= hi <= s.len(),
            forall|j: int| hi <= j < s.len() ==> in_trim_set(set, #[trigger] s@[j]),
        decreases hi,
    {
        hi = hi - 1;
    }
    let mut r: Vec<char> = Vec::new();
    let mut k: usize = lo;
    while k < hi
        invariant
            lo <= k <= hi <= s.len(),
            r@ == s@.subrange(lo as int, k as int),
        decreases hi - k,
    {
        r.push(s[k]);
        k = k + 1;
        proof {
            assert(r@ =~= s@.subrange(lo as int, k as int));
        }
    }
    proof {
        lemma_trim_start_at(s@, set, lo as int);
        let t = s@.skip(lo as int);
        assert forall|j: int| hi - lo <= j < t.len() implies in_trim_set(set, #[trigger] t[j]) by {
            assert(t[j] == s@[lo + j]);
        }
        if hi > lo {
            assert(t[hi - lo - 1] == s@[hi - 1]);
        }
        lemma_trim_end_at(t, set, hi - lo);
        assert(t.take(hi - lo) =~= s@.subrange(lo as int, hi as int));
    }
    r
}

} // verus!
