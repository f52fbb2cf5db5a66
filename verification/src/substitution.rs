//! Placeholder substitution in the stylesheet. The stylesheet template is
//! modelled as text gaps alternating with `%%NAME%%` placeholders; each
//! replacement pass turns the matching placeholders into a color and leaves
//! everything else alone, so after all passes no `%%` remains.

use vstd::prelude::*;
use vstd::string::*;
use crate::page::{
    page_after_styles, rewrite_root_urls, spec_palette, spec_styles, spec_wrap_html, viewer_script, Palette,
    FIND_MARKUP, PAGE_HEAD, PAGE_TAIL, SCRIPT_OPEN, STYLE_END, STYLE_TEMPLATE, TOC_MARKUP,
};
use crate::fixed_text::lemma_fixed_text_sealed;
use crate::text::{
    contains_seq, lemma_occurrence_chars, lemma_occurs_within, lemma_replace_after_prefix,
    lemma_replace_keeps_absent, lemma_replace_leading, occurs_at, replace_all,
};

verus! {

/// A character allowed in a placeholder name.
pub open spec fn is_name_char(c: char) -> bool {
    ('A' <= c && c <= 'Z') || c == '_'
}

/// `%%NAME%%` with a non-empty name of upper-case letters and underscores.
pub open spec fn is_placeholder(p: Seq<char>) -> bool {
    &&& p.len() >= 5
    &&& p[0] == '%' && p[1] == '%'
    &&& p[p.len() - 2] == '%' && p[p.len() - 1] == '%'
    &&& forall|i: int| 2 <= i < p.len() - 2 ==> is_name_char(#[trigger] p[i])
}

/// No two adjacent `%` characters.
pub open spec fn no_double_percent(s: Seq<char>) -> bool {
    forall|j: int| 0 <= j < s.len() - 1 ==> !(#[trigger] s[j] == '%' && s[j + 1] == '%')
}

/// No `%` at all.
pub open spec fn no_percent(s: Seq<char>) -> bool {
    forall|j: int| 0 <= j < s.len() ==> #[trigger] s[j] != '%'
}

/// Template text between placeholders: non-empty, no `%%`, not ending in `%`,
/// and not starting with `%` or a name character.
pub open spec fn is_gap(g: Seq<char>) -> bool {
    &&& g.len() > 0
    &&& no_double_percent(g)
    &&& g.last() != '%'
    &&& g[0] != '%'
    &&& !is_name_char(g[0])
}

/// `gaps[0] + fills[0] + gaps[1] + fills[1] + ... + gaps[n]`.
pub open spec fn interleave(gaps: Seq<Seq<char>>, fills: Seq<Seq<char>>) -> Seq<char>
    decreases fills.len(),
{
    if gaps.len() == 0 {
        Seq::empty()
    } else if fills.len() == 0 {
        gaps[0]
    } else {
        gaps[0] + fills[0] + interleave(gaps.drop_first(), fills.drop_first())
    }
}

/// `fills` with every fill equal to `pat` replaced by `rep`.
pub open spec fn fill_with(fills: Seq<Seq<char>>, pat: Seq<char>, rep: Seq<char>) -> Seq<
    Seq<char>,
> {
    fills.map_values(|f: Seq<char>| if f == pat { rep } else { f })
}

/// Gaps and fills that alternate, with every fill a placeholder or free of `%`.
pub open spec fn well_formed(gaps: Seq<Seq<char>>, fills: Seq<Seq<char>>) -> bool {
    &&& gaps.len() == fills.len() + 1
    &&& forall|k: int| 0 <= k < gaps.len() ==> is_gap(#[trigger] gaps[k])
    &&& forall|k: int|
        0 <= k < fills.len() ==> is_placeholder(#[trigger] fills[k]) || no_percent(fills[k])
}

/// No placeholder occurrence starts inside a gap.
proof fn lemma_gap_has_no_start(g: Seq<char>, z: Seq<char>, pat: Seq<char>)
    requires
        is_gap(g),
        is_placeholder(pat),
    ensures
        forall|i: int| 0 <= i < g.len() ==> !occurs_at(g + z, i, pat),
{
    assert forall|i: int| 0 <= i < g.len() implies !occurs_at(g + z, i, pat) by {
        if occurs_at(g + z, i, pat) {
            lemma_occurrence_chars(g + z, i, pat);
            assert((g + z)[i + 0] == pat[0]);
            assert((g + z)[i + 1] == pat[1]);
            if i + 1 < g.len() {
                assert(g[i] == '%' && g[i + 1] == '%');
            } else {
                assert(g[i] == g.last());
            }
        }
    }
}

/// No occurrence of placeholder `pat` starts inside a fill other than `pat`
/// itself, when a gap follows the fill.
proof fn lemma_fill_has_no_start(f: Seq<char>, z: Seq<char>, pat: Seq<char>)
    requires
        is_placeholder(f) || no_percent(f),
        f != pat,
        is_placeholder(pat),
        z.len() > 0,
        z[0] != '%',
        !is_name_char(z[0]),
    ensures
        forall|i: int| 0 <= i < f.len() ==> !occurs_at(f + z, i, pat),
{
    let m = f.len() as int;
    let n = pat.len() as int;
    let s = f + z;
    assert forall|i: int| 0 <= i < m implies !occurs_at(s, i, pat) by {
        if occurs_at(s, i, pat) {
            lemma_occurrence_chars(s, i, pat);
            assert(s[i + 0] == pat[0]);
            assert(s[i] == f[i]);
            if is_placeholder(f) {
                if i == 0 {
                    if n <= m {
                        assert(s[0 + (n - 2)] == pat[n - 2]);
                        assert(f[n - 2] == '%');
                        if n - 2 < m - 2 {
                            assert(is_name_char(f[n - 2]));
                        }
                        assert forall|k: int| 0 <= k < n implies f[k] == pat[k] by {
                            assert(s[0 + k] == pat[k]);
                        }
                        assert(f =~= pat);
                    } else {
                        assert(s[0 + (m - 2)] == pat[m - 2]);
                        assert(is_name_char(pat[m - 2]));
                    }
                } else if i == 1 {
                    assert(s[1int + 1] == pat[1]);
                    assert(is_name_char(f[2]));
                } else if i < m - 2 {
                    assert(is_name_char(f[i]));
                } else if i == m - 2 {
                    assert(s[i + 2] == pat[2]);
                    assert(s[m] == z[0]);
                    assert(is_name_char(pat[2]));
                } else {
                    assert(s[i + 1] == pat[1]);
                    assert(s[m] == z[0]);
                }
            }
        }
    }
}

/// One replacement pass turns the fills equal to `pat` into `rep` and leaves
/// the gaps and the other fills as they are.
pub proof fn lemma_pass(gaps: Seq<Seq<char>>, fills: Seq<Seq<char>>, pat: Seq<char>, rep: Seq<char>)
    requires
        well_formed(gaps, fills),
        is_placeholder(pat),
        no_percent(rep),
    ensures
        replace_all(interleave(gaps, fills), pat, rep) == interleave(
            gaps,
            fill_with(fills, pat, rep),
        ),
        well_formed(gaps, fill_with(fills, pat, rep)),
    decreases fills.len(),
{
    let g = gaps[0];
    let next = fill_with(fills, pat, rep);
    if fills.len() == 0 {
        lemma_gap_has_no_start(g, Seq::empty(), pat);
        lemma_replace_after_prefix(g, Seq::empty(), pat, rep);
        assert(g + Seq::<char>::empty() =~= g);
    } else {
        let f = fills[0];
        let rest = interleave(gaps.drop_first(), fills.drop_first());
        assert(well_formed(gaps.drop_first(), fills.drop_first()));
        lemma_pass(gaps.drop_first(), fills.drop_first(), pat, rep);
        assert(fill_with(fills.drop_first(), pat, rep) =~= next.drop_first());
        let g1 = gaps[1];
        assert(gaps.drop_first()[0] == g1);
        assert(rest[0] == g1[0]);
        lemma_gap_has_no_start(g, f + rest, pat);
        assert(g + f + rest =~= g + (f + rest));
        lemma_replace_after_prefix(g, f + rest, pat, rep);
        if f == pat {
            lemma_replace_leading(rest, pat, rep);
        } else {
            lemma_fill_has_no_start(f, rest, pat);
            lemma_replace_after_prefix(f, rest, pat, rep);
        }
        assert(g + (next[0] + replace_all(rest, pat, rep)) =~= g + next[0] + replace_all(
            rest,
            pat,
            rep,
        ));
    }
}

/// Concatenation keeps "no `%%`" unless a `%` meets a `%` at the seam.
proof fn lemma_no_double_percent_concat(a: Seq<char>, b: Seq<char>)
    requires
        no_double_percent(a),
        no_double_percent(b),
        a.len() > 0 && b.len() > 0 ==> !(a.last() == '%' && b[0] == '%'),
    ensures
        no_double_percent(a + b),
{
    let s = a + b;
    assert forall|j: int| 0 <= j < s.len() - 1 implies !(#[trigger] s[j] == '%' && s[j + 1]
        == '%') by {
        if j + 1 < a.len() {
            assert(s[j] == a[j] && s[j + 1] == a[j + 1]);
        } else if j >= a.len() {
            assert(s[j] == b[j - a.len()] && s[j + 1] == b[j + 1 - a.len()]);
        } else {
            assert(s[j] == a.last() && s[j + 1] == b[0]);
        }
    }
}

/// Non-empty text with no `%%` that neither starts nor ends with `%`, so that
/// it forms no `%%` with whatever stands next to it.
pub open spec fn is_sealed(s: Seq<char>) -> bool {
    &&& s.len() > 0
    &&& no_double_percent(s)
    &&& s[0] != '%'
    &&& s.last() != '%'
}

/// Sealed text joined to sealed text is sealed.
pub proof fn lemma_sealed_concat(a: Seq<char>, b: Seq<char>)
    requires
        is_sealed(a),
        is_sealed(b),
    ensures
        is_sealed(a + b),
{
    lemma_no_double_percent_concat(a, b);
    assert((a + b)[0] == a[0]);
    assert((a + b).last() == b.last());
}

/// `%%` occurs in `s` exactly when two `%` stand next to each other.
pub proof fn lemma_double_percent_occurs(s: Seq<char>)
    ensures
        contains_seq(s, "%%"@) <==> !no_double_percent(s),
{
    reveal_strlit("%%");
    assert("%%"@ =~= seq!['%', '%']);
    if contains_seq(s, "%%"@) {
        let i = choose|i: int| occurs_at(s, i, "%%"@);
        lemma_occurrence_chars(s, i, "%%"@);
        assert(s[i + 0] == "%%"@[0]);
        assert(s[i + 1] == "%%"@[1]);
        assert(s[i] == '%' && s[i + 1] == '%');
    }
    if !no_double_percent(s) {
        let j = choose|j: int| 0 <= j < s.len() - 1 && (#[trigger] s[j] == '%' && s[j + 1] == '%');
        assert(s.subrange(j, j + 2) =~= "%%"@);
        assert(occurs_at(s, j, "%%"@));
    }
}

/// Replacing occurrences of `pat` by sealed text creates no `%%`, and the
/// result starts with `%` only when `s` does.
pub proof fn lemma_replace_keeps_no_double_percent(s: Seq<char>, pat: Seq<char>, rep: Seq<char>)
    requires
        pat.len() > 0,
        no_double_percent(s),
        is_sealed(rep),
    ensures
        no_double_percent(replace_all(s, pat, rep)),
        replace_all(s, pat, rep).len() > 0 && replace_all(s, pat, rep)[0] == '%' ==> s.len() > 0
            && s[0] == '%',
    decreases s.len(),
{
    if s.len() > 0 {
        let n: int = if occurs_at(s, 0, pat) {
            pat.len() as int
        } else {
            1
        };
        let t = s.skip(n);
        assert(no_double_percent(t)) by {
            assert forall|j: int| 0 <= j < t.len() - 1 implies !(#[trigger] t[j] == '%' && t[j
                + 1] == '%') by {
                assert(t[j] == s[j + n] && t[j + 1] == s[j + 1 + n]);
            }
        }
        lemma_replace_keeps_no_double_percent(t, pat, rep);
        let rt = replace_all(t, pat, rep);
        if occurs_at(s, 0, pat) {
            lemma_no_double_percent_concat(rep, rt);
            assert((rep + rt)[0] == rep[0]);
        } else {
            let head = seq![s[0]];
            if rt.len() > 0 && rt[0] == '%' {
                assert(t[0] == s[1]);
            }
            lemma_no_double_percent_concat(head, rt);
            assert((head + rt)[0] == s[0]);
        }
    }
}

/// Once every fill is free of `%`, the whole text holds no `%%`.
pub proof fn lemma_filled_has_no_double_percent(gaps: Seq<Seq<char>>, fills: Seq<Seq<char>>)
    requires
        well_formed(gaps, fills),
        forall|k: int| 0 <= k < fills.len() ==> no_percent(#[trigger] fills[k]),
    ensures
        no_double_percent(interleave(gaps, fills)),
        interleave(gaps, fills).len() > 0,
        interleave(gaps, fills)[0] == gaps[0][0],
    decreases fills.len(),
{
    if fills.len() > 0 {
        let g = gaps[0];
        let f = fills[0];
        let rest = interleave(gaps.drop_first(), fills.drop_first());
        assert(well_formed(gaps.drop_first(), fills.drop_first()));
        assert forall|k: int| 0 <= k < fills.drop_first().len() implies no_percent(
            #[trigger] fills.drop_first()[k],
        ) by {
            assert(fills.drop_first()[k] == fills[k + 1]);
        }
        lemma_filled_has_no_double_percent(gaps.drop_first(), fills.drop_first());
        assert(no_double_percent(f)) by {
            assert forall|j: int| 0 <= j < f.len() - 1 implies !(#[trigger] f[j] == '%' && f[j
                + 1] == '%') by {
                assert(f[j] != '%');
            }
        }
        lemma_no_double_percent_concat(g, f);
        let gf = g + f;
        if f.len() > 0 {
            assert(gf.last() == f.last());
            assert(f[f.len() - 1] != '%');
        } else {
            assert(gf =~= g);
        }
        assert(gaps.drop_first()[0] == gaps[1]);
        lemma_no_double_percent_concat(gf, rest);
        assert(g + f + rest == gf + rest);
    }
}

/// Every fill appears in the text.
pub proof fn lemma_fill_appears(gaps: Seq<Seq<char>>, fills: Seq<Seq<char>>, k: int)
    requires
        gaps.len() == fills.len() + 1,
        0 <= k < fills.len(),
    ensures
        contains_seq(interleave(gaps, fills), fills[k]),
    decreases k,
{
    let s = interleave(gaps, fills);
    let rest = interleave(gaps.drop_first(), fills.drop_first());
    if k == 0 {
        let f = fills[0];
        assert(s.subrange(gaps[0].len() as int, gaps[0].len() + f.len() as int) =~= f);
        assert(occurs_at(s, gaps[0].len() as int, f));
    } else {
        lemma_fill_appears(gaps.drop_first(), fills.drop_first(), k - 1);
        let i = choose|i: int| occurs_at(rest, i, fills[k]);
        let off = gaps[0].len() + fills[0].len();
        assert(s =~= gaps[0] + fills[0] + rest);
        assert(s.subrange(off + i, off + i + fills[k].len()) =~= rest.subrange(
            i,
            i + fills[k].len(),
        ));
        assert(occurs_at(s, off + i, fills[k]));
    }
}


/// The placeholder for the `bg` color.
pub open spec fn bg_slot() -> Seq<char> {
    "%%BG%%"@
}

/// The placeholder for the `text` color.
pub open spec fn text_slot() -> Seq<char> {
    "%%TEXT%%"@
}

/// The placeholder for the `code_bg` color.
pub open spec fn code_bg_slot() -> Seq<char> {
    "%%CODE_BG%%"@
}

/// The placeholder for the `link` color.
pub open spec fn link_slot() -> Seq<char> {
    "%%LINK%%"@
}

/// The placeholder for the `border` color.
pub open spec fn border_slot() -> Seq<char> {
    "%%BORDER%%"@
}

/// The placeholder for the `toc_bg` color.
pub open spec fn toc_bg_slot() -> Seq<char> {
    "%%TOC_BG%%"@
}

/// The placeholder for the `toc_hover` color.
pub open spec fn toc_hover_slot() -> Seq<char> {
    "%%TOC_HOVER%%"@
}

/// The placeholder for the `toc_active` color.
pub open spec fn toc_active_slot() -> Seq<char> {
    "%%TOC_ACTIVE%%"@
}

/// The placeholder for the `muted` color.
pub open spec fn muted_slot() -> Seq<char> {
    "%%MUTED%%"@
}

/// Where the placeholders of the stylesheet template start and end:
/// `[0, start, end, start, end, ..., length]`.
pub open spec fn template_bounds() -> Seq<int> {
    seq![0, 228, 234, 247, 255, 270, 278, 374, 385, 555, 566, 737, 747, 799, 807, 918, 928, 1004, 1015, 1086, 1096, 1176, 1186, 1388, 1397, 1426, 1436, 1867, 1877, 1907, 1917, 2550, 2563, 2939, 2947, 3146, 3154, 3200, 3214, 3478, 3488, 3536, 3546, 3559, 3567, 3800, 3813, 4218, 4228, 4252, 4262, 4381, 4391, 4482, 4488, 4501, 4509, 4663]
}

/// The template text between placeholders.
pub open spec fn template_gaps() -> Seq<Seq<char>> {
    Seq::new(
        29,
        |k: int| STYLE_TEMPLATE@.subrange(template_bounds()[2 * k], template_bounds()[2 * k + 1]),
    )
}

/// The placeholders of the template, in order of appearance.
pub open spec fn template_fills() -> Seq<Seq<char>> {
    Seq::new(
        28,
        |k: int| STYLE_TEMPLATE@.subrange(template_bounds()[2 * k + 1], template_bounds()[2 * k + 2]),
    )
}

/// What the passes of `spec_styles` make of one placeholder `f`.
pub open spec fn substitute(f: Seq<char>, p: Palette) -> Seq<char> {
    let f = if f == bg_slot() { p.bg@ } else { f };
    let f = if f == text_slot() { p.text@ } else { f };
    let f = if f == code_bg_slot() { p.code_bg@ } else { f };
    let f = if f == link_slot() { p.link@ } else { f };
    let f = if f == border_slot() { p.border@ } else { f };
    let f = if f == toc_bg_slot() { p.toc_bg@ } else { f };
    let f = if f == toc_hover_slot() { p.toc_hover@ } else { f };
    let f = if f == toc_active_slot() { p.toc_active@ } else { f };
    let f = if f == muted_slot() { p.muted@ } else { f };
    f
}

/// Bounds that never decrease from one to the next are sorted.
proof fn lemma_bounds_sorted(b: Seq<int>, i: int, j: int)
    requires
        0 <= i <= j < b.len(),
        forall|x: int| 0 <= x < b.len() - 1 ==> #[trigger] b[x] <= b[x + 1],
    ensures
        b[i] <= b[j],
    decreases j - i,
{
    if i < j {
        lemma_bounds_sorted(b, i, j - 1);
        assert(b[j - 1] <= b[j]);
    }
}

/// Text cut at nondecreasing bounds, alternately into gaps and fills, is put
/// back together by `interleave`.
proof fn lemma_tiles(t: Seq<char>, b: Seq<int>, gaps: Seq<Seq<char>>, fills: Seq<Seq<char>>)
    requires
        gaps.len() == fills.len() + 1,
        b.len() == 2 * gaps.len(),
        0 <= b[0],
        b[b.len() - 1] <= t.len(),
        forall|i: int| 0 <= i < b.len() - 1 ==> #[trigger] b[i] <= b[i + 1],
        forall|k: int|
            0 <= k < gaps.len() ==> #[trigger] gaps[k] == t.subrange(b[2 * k], b[2 * k + 1]),
        forall|k: int|
            0 <= k < fills.len() ==> #[trigger] fills[k] == t.subrange(b[2 * k + 1], b[2 * k + 2]),
    ensures
        interleave(gaps, fills) == t.subrange(b[0], b[b.len() - 1]),
    decreases fills.len(),
{
    lemma_bounds_sorted(b, 0, b.len() - 1);
    if fills.len() > 0 {
        let b2 = b.skip(2);
        assert forall|i: int| 0 <= i < b2.len() - 1 implies #[trigger] b2[i] <= b2[i + 1] by {
            assert(b2[i] == b[i + 2] && b2[i + 1] == b[i + 3]);
            assert(b[i + 2] <= b[i + 3]);
        }
        assert forall|k: int| 0 <= k < gaps.drop_first().len() implies #[trigger] gaps.drop_first()[k]
            == t.subrange(b2[2 * k], b2[2 * k + 1]) by {
            assert(gaps.drop_first()[k] == gaps[k + 1]);
            assert(b2[2 * k] == b[2 * (k + 1)] && b2[2 * k + 1] == b[2 * (k + 1) + 1]);
        }
        assert forall|k: int| 0 <= k < fills.drop_first().len() implies #[trigger] fills.drop_first()[k]
            == t.subrange(b2[2 * k + 1], b2[2 * k + 2]) by {
            assert(fills.drop_first()[k] == fills[k + 1]);
            assert(b2[2 * k + 1] == b[2 * (k + 1) + 1] && b2[2 * k + 2] == b[2 * (k + 1) + 2]);
        }
        lemma_bounds_sorted(b, 0, 1);
        lemma_bounds_sorted(b, 1, 2);
        lemma_bounds_sorted(b, 2, b.len() - 1);
        assert(b2[0] == b[2]);
        assert(b2[b2.len() - 1] == b[b.len() - 1]);
        lemma_tiles(t, b2, gaps.drop_first(), fills.drop_first());
        assert(gaps[0] == t.subrange(b[0], b[1]));
        assert(fills[0] == t.subrange(b[1], b[2]));
        assert(t.subrange(b[0], b[1]) + t.subrange(b[1], b[2]) + t.subrange(b[2], b[b.len() - 1])
            =~= t.subrange(b[0], b[b.len() - 1]));
    }
}

/// The stylesheet template is text gaps alternating with placeholders, each
/// one of the nine that `spec_styles` fills, the first being the background;
/// it holds no `<`.
#[verifier::rlimit(60)]
proof fn lemma_template_shape()
    ensures
        STYLE_TEMPLATE@ == interleave(template_gaps(), template_fills()),
        well_formed(template_gaps(), template_fills()),
        forall|k: int|
            0 <= k < template_fills().len() ==> {
                let f = #[trigger] template_fills()[k];
                f == bg_slot() || f == text_slot() || f == code_bg_slot() || f == link_slot() || f == border_slot() || f == toc_bg_slot() || f == toc_hover_slot() || f == toc_active_slot() || f == muted_slot()
            },
        template_fills()[0] == bg_slot(),
        is_placeholder(bg_slot()),
        is_placeholder(text_slot()),
        is_placeholder(code_bg_slot()),
        is_placeholder(link_slot()),
        is_placeholder(border_slot()),
        is_placeholder(toc_bg_slot()),
        is_placeholder(toc_hover_slot()),
        is_placeholder(toc_active_slot()),
        is_placeholder(muted_slot()),
        !STYLE_TEMPLATE@.contains('<'),
{
    reveal_strlit(r#"
body {
    font-family: -apple-system, BlinkMacSystemFont, "Segoe UI", Helvetica, Arial, sans-serif;
    font-size: 14px;
    line-height: 1.6;
    padding: 20px;
    max-width: 900px;
    margin: 0 auto;
    background-color: %%BG%%;
    color: %%TEXT%%;
}
a { color: %%LINK%%; text-decoration: none; }
a:hover { text-decoration: underline; }
code {
    background-color: %%CODE_BG%%;
    padding: 0.2em 0.4em;
    border-radius: 3px;
    font-family: "Cascadia Code", "Fira Code", Consolas, monospace;
    font-size: 85%;
}
pre {
    background-color: %%CODE_BG%%;
    padding: 16px;
    overflow: auto;
    border-radius: 6px;
}
pre code {
    background-color: transparent;
    padding: 0;
}
blockquote {
    border-left: 4px solid %%BORDER%%;
    margin: 0;
    padding-left: 16px;
    color: %%TEXT%%;
    opacity: 0.8;
}
table {
    border-collapse: collapse;
    width: 100%;
}
th, td {
    border: 1px solid %%BORDER%%;
    padding: 8px 12px;
    text-align: left;
}
th {
    background-color: %%CODE_BG%%;
}
img {
    max-width: 100%;
}
h1, h2 {
    border-bottom: 1px solid %%BORDER%%;
    padding-bottom: 0.3em;
}
hr {
    border: none;
    border-top: 1px solid %%BORDER%%;
}
input[type="checkbox"] {
    margin-right: 0.5em;
}
a { cursor: pointer; }

/* YAML front matter, shown dimmed like a comment. */
.mdview-frontmatter {
    background-color: transparent;
    color: %%MUTED%%;
    border-left: 3px solid %%BORDER%%;
    border-radius: 0;
    margin: 0 0 18px 0;
    padding: 8px 12px;
    font-size: 12px;
    line-height: 1.45;
    white-space: pre-wrap;
    word-break: break-word;
    overflow-x: auto;
}

/* ---- Table of contents ---- */
#mdview-toc {
    position: fixed;
    top: 0;
    left: 0;
    width: 280px;
    height: 100vh;
    box-sizing: border-box;
    overflow-y: auto;
    padding: 44px 8px 24px 12px;
    background-color: %%TOC_BG%%;
    border-right: 1px solid %%BORDER%%;
    font-size: 13px;
    line-height: 1.35;
    z-index: 1000;
    transition: transform 0.15s ease;
    display: none;
}
#mdview-toc.mdview-toc-hidden {
    transform: translateX(-100%);
}
#mdview-toc-header {
    font-weight: 600;
    text-transform: uppercase;
    letter-spacing: 0.06em;
    font-size: 11px;
    opacity: 0.6;
    padding: 0 6px 8px 6px;
}
#mdview-toc ul {
    list-style: none;
    margin: 0;
    padding: 0;
}
#mdview-toc li { margin: 0; padding: 0; }
#mdview-toc .mdview-toc-row {
    display: flex;
    align-items: baseline;
    border-radius: 4px;
}
#mdview-toc .mdview-toc-row:hover { background-color: %%TOC_HOVER%%; }
#mdview-toc .mdview-toc-caret {
    flex: 0 0 auto;
    width: 16px;
    text-align: center;
    cursor: pointer;
    user-select: none;
    opacity: 0.55;
    font-size: 10px;
}
#mdview-toc .mdview-toc-caret.mdview-toc-empty {
    visibility: hidden;
    cursor: default;
}
#mdview-toc a {
    flex: 1 1 auto;
    display: block;
    padding: 3px 6px 3px 2px;
    color: %%TEXT%%;
    text-decoration: none;
    white-space: nowrap;
    overflow: hidden;
    text-overflow: ellipsis;
}
#mdview-toc a:hover { text-decoration: none; }
#mdview-toc a.mdview-toc-active {
    color: %%LINK%%;
    font-weight: 600;
    background-color: %%TOC_ACTIVE%%;
    border-radius: 4px;
}
#mdview-toc li.mdview-toc-collapsed > ul { display: none; }

#mdview-toc-toggle {
    position: fixed;
    top: 8px;
    left: 8px;
    z-index: 1002;
    width: 32px;
    height: 32px;
    box-sizing: border-box;
    border: 1px solid %%BORDER%%;
    border-radius: 6px;
    background-color: %%TOC_BG%%;
    color: %%TEXT%%;
    cursor: pointer;
    font-size: 15px;
    line-height: 1;
    padding: 0;
    display: none;
    align-items: center;
    justify-content: center;
    transition: left 0.15s ease;
}
#mdview-toc-toggle:hover { background-color: %%TOC_HOVER%%; }
body.mdview-toc-open #mdview-toc-toggle { left: 248px; }

/* Reserve space for the panel when open so it never overlaps the content. */
body.mdview-toc-open { padding-left: 300px; }

/* ---- Find bar (/) ---- */
#mdview-find {
    position: fixed;
    top: 10px;
    right: 14px;
    z-index: 1003;
    display: none;
    align-items: center;
    gap: 8px;
    padding: 6px 8px;
    background-color: %%TOC_BG%%;
    border: 1px solid %%BORDER%%;
    border-radius: 6px;
    box-shadow: 0 2px 10px rgba(0, 0, 0, 0.18);
}
#mdview-find input {
    border: 1px solid %%BORDER%%;
    border-radius: 4px;
    padding: 3px 6px;
    font-size: 13px;
    background-color: %%BG%%;
    color: %%TEXT%%;
    outline: none;
    min-width: 180px;
}
#mdview-find-status {
    font-size: 12px;
    opacity: 0.7;
    min-width: 52px;
    white-space: nowrap;
}
"#);
    reveal_strlit("%%BG%%");
    reveal_strlit("%%TEXT%%");
    reveal_strlit("%%CODE_BG%%");
    reveal_strlit("%%LINK%%");
    reveal_strlit("%%BORDER%%");
    reveal_strlit("%%TOC_BG%%");
    reveal_strlit("%%TOC_HOVER%%");
    reveal_strlit("%%TOC_ACTIVE%%");
    reveal_strlit("%%MUTED%%");
    let b = template_bounds();
    assert(b.len() == 2 * 29);
    assert(forall|i: int| 0 <= i < b.len() - 1 ==> #[trigger] b[i] <= b[i + 1]);
    assert(b[b.len() - 1] == STYLE_TEMPLATE@.len());
    lemma_tiles(STYLE_TEMPLATE@, b, template_gaps(), template_fills());
    assert(STYLE_TEMPLATE@.subrange(0, STYLE_TEMPLATE@.len() as int) =~= STYLE_TEMPLATE@);
    assert(is_gap(template_gaps()[0]));
    assert(is_gap(template_gaps()[1]));
    assert(is_gap(template_gaps()[2]));
    assert(is_gap(template_gaps()[3]));
    assert(is_gap(template_gaps()[4]));
    assert(is_gap(template_gaps()[5]));
    assert(is_gap(template_gaps()[6]));
    assert(is_gap(template_gaps()[7]));
    assert(is_gap(template_gaps()[8]));
    assert(is_gap(template_gaps()[9]));
    assert(is_gap(template_gaps()[10]));
    assert(is_gap(template_gaps()[11]));
    assert(is_gap(template_gaps()[12]));
    assert(is_gap(template_gaps()[13]));
    assert(is_gap(template_gaps()[14]));
    assert(is_gap(template_gaps()[15]));
    assert(is_gap(template_gaps()[16]));
    assert(is_gap(template_gaps()[17]));
    assert(is_gap(template_gaps()[18]));
    assert(is_gap(template_gaps()[19]));
    assert(is_gap(template_gaps()[20]));
    assert(is_gap(template_gaps()[21]));
    assert(is_gap(template_gaps()[22]));
    assert(is_gap(template_gaps()[23]));
    assert(is_gap(template_gaps()[24]));
    assert(is_gap(template_gaps()[25]));
    assert(is_gap(template_gaps()[26]));
    assert(is_gap(template_gaps()[27]));
    assert(is_gap(template_gaps()[28]));
    assert(template_fills()[0] =~= bg_slot());
    assert(template_fills()[1] =~= text_slot());
    assert(template_fills()[2] =~= link_slot());
    assert(template_fills()[3] =~= code_bg_slot());
    assert(template_fills()[4] =~= code_bg_slot());
    assert(template_fills()[5] =~= border_slot());
    assert(template_fills()[6] =~= text_slot());
    assert(template_fills()[7] =~= border_slot());
    assert(template_fills()[8] =~= code_bg_slot());
    assert(template_fills()[9] =~= border_slot());
    assert(template_fills()[10] =~= border_slot());
    assert(template_fills()[11] =~= muted_slot());
    assert(template_fills()[12] =~= border_slot());
    assert(template_fills()[13] =~= toc_bg_slot());
    assert(template_fills()[14] =~= border_slot());
    assert(template_fills()[15] =~= toc_hover_slot());
    assert(template_fills()[16] =~= text_slot());
    assert(template_fills()[17] =~= link_slot());
    assert(template_fills()[18] =~= toc_active_slot());
    assert(template_fills()[19] =~= border_slot());
    assert(template_fills()[20] =~= toc_bg_slot());
    assert(template_fills()[21] =~= text_slot());
    assert(template_fills()[22] =~= toc_hover_slot());
    assert(template_fills()[23] =~= toc_bg_slot());
    assert(template_fills()[24] =~= border_slot());
    assert(template_fills()[25] =~= border_slot());
    assert(template_fills()[26] =~= bg_slot());
    assert(template_fills()[27] =~= text_slot());
    assert(is_placeholder(bg_slot()));
    assert(is_placeholder(text_slot()));
    assert(is_placeholder(code_bg_slot()));
    assert(is_placeholder(link_slot()));
    assert(is_placeholder(border_slot()));
    assert(is_placeholder(toc_bg_slot()));
    assert(is_placeholder(toc_hover_slot()));
    assert(is_placeholder(toc_active_slot()));
    assert(is_placeholder(muted_slot()));
    assert(!STYLE_TEMPLATE@.contains('<')) by {
        assert(forall|i: int| 0 <= i < STYLE_TEMPLATE@.len() ==> STYLE_TEMPLATE@[i] != '<');
    }
}


/// A color (no `%`) is never a placeholder.
proof fn lemma_color_is_not_placeholder(c: Seq<char>, slot: Seq<char>)
    requires
        no_percent(c),
        is_placeholder(slot),
    ensures
        c != slot,
{
    if c == slot {
        assert(c[0] == '%');
    }
}

/// Every color of either palette is free of `%` and of `<`.
proof fn lemma_palette_chars(dark_mode: bool)
    ensures
        ({
            let p = spec_palette(dark_mode);
            &&& !p.bg@.contains('<')
            &&& !p.text@.contains('<')
            &&& !p.code_bg@.contains('<')
            &&& !p.link@.contains('<')
            &&& !p.border@.contains('<')
            &&& !p.toc_bg@.contains('<')
            &&& !p.toc_hover@.contains('<')
            &&& !p.toc_active@.contains('<')
            &&& !p.muted@.contains('<')
            &&& no_percent(p.bg@)
            &&& no_percent(p.text@)
            &&& no_percent(p.code_bg@)
            &&& no_percent(p.link@)
            &&& no_percent(p.border@)
            &&& no_percent(p.toc_bg@)
            &&& no_percent(p.toc_hover@)
            &&& no_percent(p.toc_active@)
            &&& no_percent(p.muted@)
        }),
{
    reveal_strlit("#0366d6");
    reveal_strlit("#1e1e1e");
    reveal_strlit("#24292e");
    reveal_strlit("#252526");
    reveal_strlit("#2d2d2d");
    reveal_strlit("#2d2d30");
    reveal_strlit("#37373d");
    reveal_strlit("#444");
    reveal_strlit("#58a6ff");
    reveal_strlit("#6a737d");
    reveal_strlit("#8b949e");
    reveal_strlit("#d4d4d4");
    reveal_strlit("#dbe9ff");
    reveal_strlit("#e1e4e8");
    reveal_strlit("#eaeef2");
    reveal_strlit("#f6f8fa");
    reveal_strlit("#ffffff");
    let p = spec_palette(dark_mode);
    assert(no_percent(p.bg@));
    assert(no_percent(p.text@));
    assert(no_percent(p.code_bg@));
    assert(no_percent(p.link@));
    assert(no_percent(p.border@));
    assert(no_percent(p.toc_bg@));
    assert(no_percent(p.toc_hover@));
    assert(no_percent(p.toc_active@));
    assert(no_percent(p.muted@));
    assert(!p.bg@.contains('<'));
    assert(!p.text@.contains('<'));
    assert(!p.code_bg@.contains('<'));
    assert(!p.link@.contains('<'));
    assert(!p.border@.contains('<'));
    assert(!p.toc_bg@.contains('<'));
    assert(!p.toc_hover@.contains('<'));
    assert(!p.toc_active@.contains('<'));
    assert(!p.muted@.contains('<'));
}

/// The stylesheet of either palette has every color placeholder substituted:
/// no `%%` is left in it, and it holds the palette's background color.
pub proof fn law_styles_fully_substituted(dark_mode: bool)
    ensures
        !contains_seq(spec_styles(spec_palette(dark_mode)), "%%"@),
        contains_seq(spec_styles(spec_palette(dark_mode)), spec_palette(dark_mode).bg@),
{
    let p = spec_palette(dark_mode);
    lemma_template_shape();
    lemma_palette_chars(dark_mode);
    let gaps = template_gaps();
    let f0 = template_fills();
    lemma_pass(gaps, f0, bg_slot(), p.bg@);
    let f1 = fill_with(f0, bg_slot(), p.bg@);
    lemma_pass(gaps, f1, text_slot(), p.text@);
    let f2 = fill_with(f1, text_slot(), p.text@);
    lemma_pass(gaps, f2, code_bg_slot(), p.code_bg@);
    let f3 = fill_with(f2, code_bg_slot(), p.code_bg@);
    lemma_pass(gaps, f3, link_slot(), p.link@);
    let f4 = fill_with(f3, link_slot(), p.link@);
    lemma_pass(gaps, f4, border_slot(), p.border@);
    let f5 = fill_with(f4, border_slot(), p.border@);
    lemma_pass(gaps, f5, toc_bg_slot(), p.toc_bg@);
    let f6 = fill_with(f5, toc_bg_slot(), p.toc_bg@);
    lemma_pass(gaps, f6, toc_hover_slot(), p.toc_hover@);
    let f7 = fill_with(f6, toc_hover_slot(), p.toc_hover@);
    lemma_pass(gaps, f7, toc_active_slot(), p.toc_active@);
    let f8 = fill_with(f7, toc_active_slot(), p.toc_active@);
    lemma_pass(gaps, f8, muted_slot(), p.muted@);
    let f9 = fill_with(f8, muted_slot(), p.muted@);
    assert(spec_styles(p) == interleave(gaps, f9));
    assert forall|c: Seq<char>, slot: Seq<char>|
        no_percent(c) && is_placeholder(slot) implies c != slot by {
        lemma_color_is_not_placeholder(c, slot);
    }
    assert forall|k: int| 0 <= k < f9.len() implies no_percent(#[trigger] f9[k]) by {
        assert(f9[k] == substitute(f0[k], p));
    }
    lemma_filled_has_no_double_percent(gaps, f9);
    lemma_double_percent_occurs(spec_styles(p));
    assert(f9[0] == p.bg@);
    lemma_fill_appears(gaps, f9, 0);
}

/// Every page is styled in the palette it asks for: the dark page holds the
/// dark background color and the light page the light one, whatever the content.
pub proof fn law_page_uses_palette(content: Seq<char>, dark_mode: bool)
    ensures
        contains_seq(spec_wrap_html(content, dark_mode), spec_palette(dark_mode).bg@),
{
    law_styles_fully_substituted(dark_mode);
    let styles = spec_styles(spec_palette(dark_mode));
    let bg = spec_palette(dark_mode).bg@;
    let i = choose|i: int| occurs_at(styles, i, bg);
    let rest = STYLE_END@ + TOC_MARKUP@ + FIND_MARKUP@ + rewrite_root_urls(content) + SCRIPT_OPEN@
        + viewer_script() + PAGE_TAIL@;
    assert(spec_wrap_html(content, dark_mode) =~= PAGE_HEAD@ + styles + rest);
    lemma_occurs_within(PAGE_HEAD@, styles, rest, i, bg);
}

/// Making root-relative URLs relative creates no `%%`.
proof fn lemma_rewrite_keeps_no_double_percent(content: Seq<char>)
    requires
        no_double_percent(content),
    ensures
        no_double_percent(rewrite_root_urls(content)),
{
    reveal_strlit("src=\"/");
    reveal_strlit("href=\"/");
    reveal_strlit("src='/");
    reveal_strlit("href='/");
    reveal_strlit("src=\"");
    reveal_strlit("href=\"");
    reveal_strlit("src='");
    reveal_strlit("href='");
    assert(is_sealed("src=\""@));
    assert(is_sealed("href=\""@));
    assert(is_sealed("src='"@));
    assert(is_sealed("href='"@));
    let a = replace_all(content, "src=\"/"@, "src=\""@);
    let b = replace_all(a, "href=\"/"@, "href=\""@);
    let c = replace_all(b, "src='/"@, "src='"@);
    lemma_replace_keeps_no_double_percent(content, "src=\"/"@, "src=\""@);
    lemma_replace_keeps_no_double_percent(a, "href=\"/"@, "href=\""@);
    lemma_replace_keeps_no_double_percent(b, "src='/"@, "src='"@);
    lemma_replace_keeps_no_double_percent(c, "href='/"@, "href='"@);
}

/// Every color placeholder of the page is substituted: when the content holds
/// no `%%` itself, no `%%` appears anywhere in the page, whichever the palette.
pub proof fn law_page_fully_substituted(content: Seq<char>, dark_mode: bool)
    requires
        !contains_seq(content, "%%"@),
    ensures
        !contains_seq(spec_wrap_html(content, dark_mode), "%%"@),
{
    let styles = spec_styles(spec_palette(dark_mode));
    law_styles_fully_substituted(dark_mode);
    lemma_double_percent_occurs(styles);
    lemma_double_percent_occurs(content);
    lemma_rewrite_keeps_no_double_percent(content);
    lemma_fixed_text_sealed();
    let c = rewrite_root_urls(content);
    let x1 = PAGE_HEAD@ + styles;
    lemma_no_double_percent_concat(PAGE_HEAD@, styles);
    let x2 = x1 + STYLE_END@;
    lemma_no_double_percent_concat(x1, STYLE_END@);
    let x3 = x2 + TOC_MARKUP@;
    lemma_no_double_percent_concat(x2, TOC_MARKUP@);
    let x4 = x3 + FIND_MARKUP@;
    lemma_no_double_percent_concat(x3, FIND_MARKUP@);
    assert(x4.last() == FIND_MARKUP@.last());
    let x5 = x4 + c;
    lemma_no_double_percent_concat(x4, c);
    let x6 = x5 + SCRIPT_OPEN@;
    lemma_no_double_percent_concat(x5, SCRIPT_OPEN@);
    let x7 = x6 + viewer_script();
    lemma_no_double_percent_concat(x6, viewer_script());
    let x8 = x7 + PAGE_TAIL@;
    lemma_no_double_percent_concat(x7, PAGE_TAIL@);
    assert(spec_wrap_html(content, dark_mode) == x8);
    lemma_double_percent_occurs(x8);
}

/// The stylesheet holds no `<` in either palette.
proof fn lemma_styles_have_no_tag(dark_mode: bool)
    ensures
        !spec_styles(spec_palette(dark_mode)).contains('<'),
{
    let p = spec_palette(dark_mode);
    lemma_template_shape();
    lemma_palette_chars(dark_mode);
    reveal_strlit("%%BG%%");
    reveal_strlit("%%TEXT%%");
    reveal_strlit("%%CODE_BG%%");
    reveal_strlit("%%LINK%%");
    reveal_strlit("%%BORDER%%");
    reveal_strlit("%%TOC_BG%%");
    reveal_strlit("%%TOC_HOVER%%");
    reveal_strlit("%%TOC_ACTIVE%%");
    reveal_strlit("%%MUTED%%");
    let s0 = STYLE_TEMPLATE@;
    lemma_replace_keeps_absent(s0, "%%BG%%"@, p.bg@, '<');
    let s1 = replace_all(s0, "%%BG%%"@, p.bg@);
    lemma_replace_keeps_absent(s1, "%%TEXT%%"@, p.text@, '<');
    let s2 = replace_all(s1, "%%TEXT%%"@, p.text@);
    lemma_replace_keeps_absent(s2, "%%CODE_BG%%"@, p.code_bg@, '<');
    let s3 = replace_all(s2, "%%CODE_BG%%"@, p.code_bg@);
    lemma_replace_keeps_absent(s3, "%%LINK%%"@, p.link@, '<');
    let s4 = replace_all(s3, "%%LINK%%"@, p.link@);
    lemma_replace_keeps_absent(s4, "%%BORDER%%"@, p.border@, '<');
    let s5 = replace_all(s4, "%%BORDER%%"@, p.border@);
    lemma_replace_keeps_absent(s5, "%%TOC_BG%%"@, p.toc_bg@, '<');
    let s6 = replace_all(s5, "%%TOC_BG%%"@, p.toc_bg@);
    lemma_replace_keeps_absent(s6, "%%TOC_HOVER%%"@, p.toc_hover@, '<');
    let s7 = replace_all(s6, "%%TOC_HOVER%%"@, p.toc_hover@);
    lemma_replace_keeps_absent(s7, "%%TOC_ACTIVE%%"@, p.toc_active@, '<');
    let s8 = replace_all(s7, "%%TOC_ACTIVE%%"@, p.toc_active@);
    lemma_replace_keeps_absent(s8, "%%MUTED%%"@, p.muted@, '<');
}

/// The palette changes only the stylesheet: for `dark_mode` either way, the
/// page is the same head, ending with the `<style>` tag, then the stylesheet
/// in that palette, which holds no `<` and so no tag, then the same rest,
/// starting with the `</style>` tag.
pub proof fn law_palette_changes_only_stylesheet(content: Seq<char>, dark_a: bool, dark_b: bool)
    ensures
        spec_wrap_html(content, dark_a) == PAGE_HEAD@ + spec_styles(spec_palette(dark_a))
            + page_after_styles(content),
        spec_wrap_html(content, dark_b) == PAGE_HEAD@ + spec_styles(spec_palette(dark_b))
            + page_after_styles(content),
        PAGE_HEAD@.len() >= 7,
        PAGE_HEAD@.skip(PAGE_HEAD@.len() - 7) == seq!['<', 's', 't', 'y', 'l', 'e', '>'],
        page_after_styles(content).len() >= 8,
        page_after_styles(content).take(8) == seq!['<', '/', 's', 't', 'y', 'l', 'e', '>'],
        !spec_styles(spec_palette(dark_a)).contains('<'),
        !spec_styles(spec_palette(dark_b)).contains('<'),
{
    reveal_strlit("<!DOCTYPE html>\n<html>\n<head>\n<meta charset=\"UTF-8\">\n<style>");
    reveal_strlit("</style>\n</head>\n<body>\n");
    lemma_styles_have_no_tag(dark_a);
    lemma_styles_have_no_tag(dark_b);
    let rest = page_after_styles(content);
    assert(spec_wrap_html(content, dark_a) =~= PAGE_HEAD@ + spec_styles(spec_palette(dark_a))
        + rest);
    assert(spec_wrap_html(content, dark_b) =~= PAGE_HEAD@ + spec_styles(spec_palette(dark_b))
        + rest);
    assert(PAGE_HEAD@.skip(PAGE_HEAD@.len() - 7) =~= seq!['<', 's', 't', 'y', 'l', 'e', '>']);
    assert(rest.take(8) =~= STYLE_END@.take(8));
    assert(STYLE_END@.take(8) =~= seq!['<', '/', 's', 't', 'y', 'l', 'e', '>']);
}

} // verus!
