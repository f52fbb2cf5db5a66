//! YAML front matter: finding the leading `---` block, HTML-escaping its text,
//! and rendering it as a dimmed comment-style block.

use vstd::prelude::*;
use vstd::string::*;
use crate::text::{
    chars_of, contains_seq, is_white_space, lemma_replace_absent, lemma_replace_leading,
    lemma_replace_split, lemma_trim_start_append, occurs_at, push_char, replace_all,
    replace_chars, trim, trim_chars, trim_end, trim_start, white_space,
    string_of as string_of_chars, TrimSet,
};

verus! {

broadcast use vstd::string::group_string_axioms;

/// Number of characters taken by a leading byte-order mark (0 or 1).
pub open spec fn bom_len(s: Seq<char>) -> int {
    if s.len() > 0 && s[0] == '\u{feff}' {
        1
    } else {
        0
    }
}

/// The index of the first line feed at or after `i`, or `s.len()` if none.
pub open spec fn line_end(s: Seq<char>, i: int) -> int
    decreases s.len() - i,
{
    if i >= s.len() {
        s.len() as int
    } else if s[i] == '\n' {
        i
    } else {
        line_end(s, i + 1)
    }
}

/// `line` without its trailing carriage returns.
pub open spec fn trim_end_cr(line: Seq<char>) -> Seq<char>
    decreases line.len(),
{
    if line.len() > 0 && line.last() == '\r' {
        trim_end_cr(line.drop_last())
    } else {
        line
    }
}

/// A line that opens front matter: `---`, possibly followed by carriage returns.
pub open spec fn is_open_delim(line: Seq<char>) -> bool {
    trim_end_cr(line) == seq!['-', '-', '-']
}

/// A line that closes front matter: `---` or `...`, possibly followed by carriage returns.
pub open spec fn is_close_delim(line: Seq<char>) -> bool {
    trim_end_cr(line) == seq!['-', '-', '-'] || trim_end_cr(line) == seq!['.', '.', '.']
}

/// The first line at or after `cursor` (a line start) that closes front matter:
/// its start, and where the text after it begins.
pub open spec fn find_close(s: Seq<char>, cursor: int) -> Option<(int, int)>
    decreases s.len() - cursor,
{
    if cursor < 0 || cursor > s.len() {
        None
    } else {
        let e = line_end(s, cursor);
        if is_close_delim(s.subrange(cursor, e)) {
            Some((cursor, if e < s.len() { e + 1 } else { s.len() as int }))
        } else if e >= s.len() {
            None
        } else {
            proof {
                lemma_line_end_bounds(s, cursor);
            }
            find_close(s, e + 1)
        }
    }
}

/// The front matter of `md` and the body after it, as character positions are
/// counted after an optional leading byte-order mark.
pub open spec fn spec_split_frontmatter(md: Seq<char>) -> Option<(Seq<char>, Seq<char>)> {
    let off = bom_len(md);
    let f = line_end(md, off);
    if f >= md.len() || !is_open_delim(md.subrange(off, f)) {
        None
    } else {
        match find_close(md, f + 1) {
            Some((c, next)) => Some((md.subrange(f + 1, c), md.subrange(next, md.len() as int))),
            None => None,
        }
    }
}

/// `line_end` lies between `i` and the end, at a line feed unless at the end,
/// with no line feed before it.
pub proof fn lemma_line_end_bounds(s: Seq<char>, i: int)
    requires
        0 <= i <= s.len(),
    ensures
        i <= line_end(s, i) <= s.len(),
        line_end(s, i) < s.len() ==> s[line_end(s, i)] == '\n',
        forall|j: int| i <= j < line_end(s, i) ==> s[j] != '\n',
    decreases s.len() - i,
{
    if i < s.len() && s[i] != '\n' {
        lemma_line_end_bounds(s, i + 1);
    }
}

/// `line_end` is the first line feed at or after `i`.
pub proof fn lemma_line_end_is(s: Seq<char>, i: int, j: int)
    requires
        0 <= i <= j <= s.len(),
        j < s.len() ==> s[j] == '\n',
        forall|k: int| i <= k < j ==> s[k] != '\n',
    ensures
        line_end(s, i) == j,
    decreases j - i,
{
    if i < j {
        lemma_line_end_is(s, i + 1, j);
    }
}

/// What `find_close` finds, scanning from a line start `cursor`: the first line
/// at or after `cursor` that closes front matter, if any.
pub proof fn lemma_find_close(s: Seq<char>, cursor: int)
    requires
        1 <= cursor <= s.len(),
        s[cursor - 1] == '\n',
    ensures
        match find_close(s, cursor) {
            Some((c, next)) => {
                &&& cursor <= c <= s.len()
                &&& s[c - 1] == '\n'
                &&& is_close_delim(s.subrange(c, line_end(s, c)))
                &&& next == if line_end(s, c) < s.len() { line_end(s, c) + 1 } else { s.len() as int }
                &&& forall|p: int|
                    cursor <= p < c && s[p - 1] == '\n' ==> !is_close_delim(
                        #[trigger] s.subrange(p, line_end(s, p)),
                    )
            },
            None => forall|p: int|
                cursor <= p <= s.len() && s[p - 1] == '\n' ==> !is_close_delim(
                    #[trigger] s.subrange(p, line_end(s, p)),
                ),
        },
    decreases s.len() - cursor,
{
    lemma_line_end_bounds(s, cursor);
    let e = line_end(s, cursor);
    if is_close_delim(s.subrange(cursor, e)) {
    } else if e >= s.len() {
        assert forall|p: int| cursor <= p <= s.len() && s[p - 1] == '\n' implies !is_close_delim(
            #[trigger] s.subrange(p, line_end(s, p)),
        ) by {
            if p > cursor {
                assert(s[p - 1] != '\n');
            }
        }
    } else {
        lemma_find_close(s, e + 1);
        assert forall|p: int| cursor <= p < e + 1 && s[p - 1] == '\n' implies !is_close_delim(
            #[trigger] s.subrange(p, line_end(s, p)),
        ) by {
            if p > cursor {
                assert(s[p - 1] != '\n');
            }
        }
    }
}

/// The index of the first line feed at or after `i`, or `s.len()`.
fn find_line_end(s: &Vec<char>, i: usize) -> (e: usize)
    requires
        i <= s.len(),
    ensures
        e == line_end(s@, i as int),
{
    let mut e = i;
    while e < s.len() && s[e] != '\n'
        invariant
            i <= e <= s.len(),
            line_end(s@, i as int) == line_end(s@, e as int),
        decreases s.len() - e,
    {
        e = e + 1;
    }
    e
}

/// `trim_end_cr` of the line `s[start..end]` equals the three-character `word`.
fn trimmed_line_is(s: &Vec<char>, start: usize, end: usize, word: &Vec<char>) -> (r: bool)
    requires
        start <= end <= s.len(),
        word.len() == 3,
    ensures
        r == (trim_end_cr(s@.subrange(start as int, end as int)) == word@),
{
    let mut e = end;
    while e > start && s[e - 1] == '\r'
        invariant
            start <= e <= end <= s.len(),
            trim_end_cr(s@.subrange(start as int, end as int)) == trim_end_cr(
                s@.subrange(start as int, e as int),
            ),
        decreases e,
    {
        proof {
            assert(s@.subrange(start as int, e as int).drop_last() =~= s@.subrange(
                start as int,
                e - 1,
            ));
        }
        e = e - 1;
    }
    let ghost line = s@.subrange(start as int, e as int);
    assert(trim_end_cr(line) == line);
    if e - start != 3 {
        return false;
    }
    let r = s[start] == word[0] && s[start + 1] == word[1] && s[start + 2] == word[2];
    proof {
        if r {
            assert(line =~= word@);
        } else {
            assert(line[0] != word@[0] || line[1] != word@[1] || line[2] != word@[2]);
        }
    }
    r
}

/// Split a leading YAML front-matter block from the document. The block must
/// start with a `---` line at the very top and end at the next `---` or `...`
/// line. Returns `(frontmatter, body)`; `None` when there is no such block (so
/// a lone `---` stays a normal thematic break).
pub fn split_frontmatter(markdown: &str) -> (res: Option<(&str, &str)>)
    ensures
        res is Some <==> spec_split_frontmatter(markdown@) is Some,
        res matches Some((fm, body)) ==> spec_split_frontmatter(markdown@) == Some(
            (fm@, body@),
        ),
{
    let chars = chars_of(markdown);
    let n = chars.len();
    let dashes: Vec<char> = vec!['-', '-', '-'];
    let dots: Vec<char> = vec!['.', '.', '.'];
    assert(dashes@ =~= seq!['-', '-', '-']);
    assert(dots@ =~= seq!['.', '.', '.']);
    let off: usize = if n > 0 && chars[0] == '\u{feff}' {
        1
    } else {
        0
    };
    let f = find_line_end(&chars, off);
    proof {
        lemma_line_end_bounds(chars@, off as int);
    }
    if f >= n || !trimmed_line_is(&chars, off, f, &dashes) {
        return None;
    }
    let content_start = f + 1;
    let mut cursor = content_start;
    loop
        invariant
            n == chars@.len() == markdown@.len(),
            chars@ == markdown@,
            dashes@ == seq!['-', '-', '-'],
            dots@ == seq!['.', '.', '.'],
            content_start <= cursor <= n,
            spec_split_frontmatter(markdown@) == match find_close(chars@, cursor as int) {
                Some((c, next)) => Some(
                    (
                        chars@.subrange(content_start as int, c),
                        chars@.subrange(next, n as int),
                    ),
                ),
                None => None,
            },
        decreases n - cursor,
    {
        let e = find_line_end(&chars, cursor);
        proof {
            lemma_line_end_bounds(chars@, cursor as int);
        }
        if trimmed_line_is(&chars, cursor, e, &dashes) || trimmed_line_is(&chars, cursor, e, &dots) {
            let next = if e < n {
                e + 1
            } else {
                n
            };
            let fm = markdown.substring_char(content_start, cursor);
            let body = markdown.substring_char(next, n);
            return Some((fm, body));
        }
        if e >= n {
            return None;
        }
        cursor = e + 1;
    }
}

/// Whether `s[i..j]` is a whole line of `s`: it starts the text or follows a
/// line feed, holds no line feed, and is ended by one.
pub open spec fn is_line_of(s: Seq<char>, i: int, j: int) -> bool {
    &&& 0 <= i <= j < s.len()
    &&& (i == 0 || s[i - 1] == '\n')
    &&& s[j] == '\n'
    &&& forall|k: int| i <= k < j ==> s[k] != '\n'
}

/// A front-matter split reassembles the document: after an optional byte-order
/// mark, the document is an opening `---` line, a line feed, the front matter,
/// a closing `---` or `...` line, and the body (after the line feed that ends
/// the closing line, unless that line ends the document). The front matter is
/// empty or ends with a line feed, and none of its lines closes front matter,
/// so the block ends at the first closing line; the delimiter lines belong to
/// neither part.
pub proof fn law_split_reassembles(md: Seq<char>) -> (parts: (Seq<char>, Seq<char>, Seq<char>))
    requires
        spec_split_frontmatter(md) is Some,
    ensures
        ({
            let (fm, body) = spec_split_frontmatter(md)->0;
            let (open, close, sep) = parts;
            &&& is_open_delim(open)
            &&& !open.contains('\n')
            &&& is_close_delim(close)
            &&& !close.contains('\n')
            &&& sep == seq!['\n'] || (sep.len() == 0 && body.len() == 0)
            &&& md.skip(bom_len(md)) == open + seq!['\n'] + fm + close + sep + body
            &&& fm.len() == 0 || fm.last() == '\n'
            &&& forall|i: int, j: int| #[trigger]
                is_line_of(fm, i, j) ==> !is_close_delim(fm.subrange(i, j))
        }),
{
    let off = bom_len(md);
    lemma_line_end_bounds(md, off);
    let f = line_end(md, off);
    lemma_find_close(md, f + 1);
    let (c, next) = find_close(md, f + 1)->0;
    let (fm, body) = spec_split_frontmatter(md)->0;
    lemma_line_end_bounds(md, c);
    let e = line_end(md, c);
    let open = md.subrange(off, f);
    let close = md.subrange(c, e);
    let sep = md.subrange(e, next);
    assert(md.skip(off) =~= open + seq!['\n'] + fm + close + sep + body);
    assert forall|i: int, j: int| #[trigger] is_line_of(fm, i, j) implies !is_close_delim(
        fm.subrange(i, j),
    ) by {
        let p = f + 1 + i;
        assert(md[p - 1] == '\n');
        assert forall|k: int| p <= k < f + 1 + j implies md[k] != '\n' by {
            assert(md[k] == fm[k - f - 1]);
        }
        assert(md[f + 1 + j] == fm[j]);
        lemma_line_end_is(md, p, f + 1 + j);
        assert(md.subrange(p, line_end(md, p)) =~= fm.subrange(i, j));
    }
    (open, close, sep)
}

/// A document that starts (after an optional byte-order mark) with an opening
/// `---` line, and has a closing `---` or `...` line somewhere below it, has
/// front matter.
pub proof fn law_closed_block_is_frontmatter(
    md: Seq<char>,
    open: Seq<char>,
    between: Seq<char>,
    close: Seq<char>,
    after: Seq<char>,
)
    requires
        md.skip(bom_len(md)) == open + seq!['\n'] + between + close + after,
        is_open_delim(open),
        !open.contains('\n'),
        between.len() == 0 || between.last() == '\n',
        is_close_delim(close),
        !close.contains('\n'),
        after.len() == 0 || after[0] == '\n',
    ensures
        spec_split_frontmatter(md) is Some,
{
    let off = bom_len(md);
    let src = md.skip(off);
    let f = off + open.len();
    assert(src.len() == open.len() + 1 + between.len() + close.len() + after.len());
    assert(md.len() == off + src.len());
    assert forall|k: int| off <= k < f implies md[k] != '\n' by {
        assert(md[k] == src[k - off]);
        assert(src[k - off] == open[k - off]);
    }
    assert(md[f] == src[open.len() as int]);
    lemma_line_end_is(md, off, f);
    assert(md.subrange(off, f) =~= open);
    let p = f + 1 + between.len();
    let q = p + close.len();
    let x = open + seq!['\n'] + between;
    assert(src =~= x + close + after);
    assert(x.len() == p - off);
    assert(md.len() == off + src.len());
    assert forall|k: int| p <= k < q implies md[k] == close[k - p] by {
        assert(md[k] == src[k - off]);
        assert((x + close)[k - off] == close[k - p]);
        assert(src[k - off] == (x + close)[k - off]);
    }
    assert forall|k: int| p <= k < q implies md[k] != '\n' by {
        assert(md[k] == close[k - p]);
    }
    if q < md.len() {
        assert(md[q] == src[q - off]);
        assert(src[q - off] == after[0]);
    }
    lemma_line_end_is(md, p, q);
    assert(md.subrange(p, q) =~= close);
    assert(md[p - 1] == '\n') by {
        assert(md[p - 1] == src[p - 1 - off]);
        if between.len() > 0 {
            assert(src[p - 1 - off] == between.last());
        }
    }
    lemma_find_close(md, f + 1);
}

/// A document whose first line (after an optional byte-order mark) is not an
/// opening `---` line has no front matter.
pub proof fn law_no_opening_line_no_frontmatter(md: Seq<char>, first: Seq<char>, rest: Seq<char>)
    requires
        md.skip(bom_len(md)) == first + rest,
        !first.contains('\n'),
        rest.len() == 0 || rest[0] == '\n',
        !is_open_delim(first),
    ensures
        spec_split_frontmatter(md) is None,
{
    let off = bom_len(md);
    let src = md.skip(off);
    let f = off + first.len();
    assert(md.len() == off + src.len());
    assert forall|k: int| off <= k < f implies md[k] != '\n' by {
        assert(md[k] == src[k - off]);
        assert(src[k - off] == first[k - off]);
    }
    if f < md.len() {
        assert(md[f] == src[first.len() as int]);
    }
    lemma_line_end_is(md, off, f);
    assert(md.subrange(off, f) =~= first);
}

/// The HTML text for `c`: `&`, `<` and `>` become entities, anything else stays.
pub open spec fn escape_char(c: char) -> Seq<char> {
    if c == '&' {
        seq!['&', 'a', 'm', 'p', ';']
    } else if c == '<' {
        seq!['&', 'l', 't', ';']
    } else if c == '>' {
        seq!['&', 'g', 't', ';']
    } else {
        seq![c]
    }
}

/// `s` with each character replaced by its HTML text (`escape_char`).
pub open spec fn escape_seq(s: Seq<char>) -> Seq<char>
    decreases s.len(),
{
    if s.len() == 0 {
        Seq::empty()
    } else {
        escape_seq(s.drop_last()) + escape_char(s.last())
    }
}

/// `s` with `&`, `<` and `>` written as HTML entities.
pub fn escape_html(s: &str) -> (out: String)
    ensures
        out@ == escape_seq(s@),
        forall|i: int| 0 <= i < out@.len() ==> out@[i] != '<' && out@[i] != '>',
{
    let chars = chars_of(s);
    let mut out = String::new();
    proof {
        assert(chars@.take(0) =~= Seq::<char>::empty());
    }
    for i in 0..chars.len()
        invariant
            chars@ == s@,
            out@ == escape_seq(chars@.take(i as int)),
    {
        let c = chars[i];
        let ghost before = out@;
        if c == '&' {
            out.append("&amp;");
            assert("&amp;"@ =~= escape_char(c)) by {
                reveal_strlit("&amp;");
            }
        } else if c == '<' {
            out.append("&lt;");
            assert("&lt;"@ =~= escape_char(c)) by {
                reveal_strlit("&lt;");
            }
        } else if c == '>' {
            out.append("&gt;");
            assert("&gt;"@ =~= escape_char(c)) by {
                reveal_strlit("&gt;");
            }
        } else {
            push_char(&mut out, c);
        }
        proof {
            assert(out@ =~= before + escape_char(c));
            assert(chars@.take(i + 1).drop_last() =~= chars@.take(i as int));
        }
    }
    proof {
        assert(chars@.take(chars@.len() as int) =~= chars@);
        lemma_escape_no_angle(s@);
    }
    out
}

/// Escaped text holds no `<` or `>`.
pub proof fn lemma_escape_no_angle(s: Seq<char>)
    ensures
        forall|i: int|
            0 <= i < escape_seq(s).len() ==> escape_seq(s)[i] != '<' && escape_seq(s)[i] != '>',
    decreases s.len(),
{
    if s.len() > 0 {
        lemma_escape_no_angle(s.drop_last());
        let a = escape_seq(s.drop_last());
        let b = escape_char(s.last());
        assert forall|i: int| 0 <= i < (a + b).len() implies (a + b)[i] != '<' && (a + b)[i]
            != '>' by {
            if i >= a.len() {
                assert((a + b)[i] == b[i - a.len()]);
            }
        }
    }
}

/// The text before HTML escaping: scanning from the left, `&amp;`, `&lt;` and
/// `&gt;` become `&`, `<` and `>`, and any other character stays.
pub open spec fn unescape_seq(s: Seq<char>) -> Seq<char>
    decreases s.len(),
{
    if s.len() == 0 {
        Seq::empty()
    } else if s.len() >= 5 && s.take(5) == seq!['&', 'a', 'm', 'p', ';'] {
        seq!['&'] + unescape_seq(s.skip(5))
    } else if s.len() >= 4 && s.take(4) == seq!['&', 'l', 't', ';'] {
        seq!['<'] + unescape_seq(s.skip(4))
    } else if s.len() >= 4 && s.take(4) == seq!['&', 'g', 't', ';'] {
        seq!['>'] + unescape_seq(s.skip(4))
    } else {
        seq![s[0]] + unescape_seq(s.skip(1))
    }
}

/// Escaping a concatenation escapes each part.
proof fn lemma_escape_concat(a: Seq<char>, b: Seq<char>)
    ensures
        escape_seq(a + b) == escape_seq(a) + escape_seq(b),
    decreases b.len(),
{
    if b.len() == 0 {
        assert(a + b =~= a);
    } else {
        lemma_escape_concat(a, b.drop_last());
        assert((a + b).drop_last() =~= a + b.drop_last());
        assert((a + b).last() == b.last());
    }
}

/// Unescaping the escape of one character, followed by any text, gives back
/// that character followed by the unescaped text.
proof fn lemma_unescape_step(c: char, t: Seq<char>)
    ensures
        unescape_seq(escape_char(c) + t) == seq![c] + unescape_seq(t),
{
    let s = escape_char(c) + t;
    if c == '&' {
        assert(s.take(5) =~= seq!['&', 'a', 'm', 'p', ';']);
        assert(s.skip(5) =~= t);
    } else if c == '<' {
        assert(s[1] == 'l');
        assert(s.len() < 5 || s.take(5)[1] != seq!['&', 'a', 'm', 'p', ';'][1]);
        assert(s.take(4) =~= seq!['&', 'l', 't', ';']);
        assert(s.skip(4) =~= t);
    } else if c == '>' {
        assert(s[1] == 'g');
        assert(s.len() < 5 || s.take(5)[1] != seq!['&', 'a', 'm', 'p', ';'][1]);
        assert(s.take(4)[1] != seq!['&', 'l', 't', ';'][1]);
        assert(s.take(4) =~= seq!['&', 'g', 't', ';']);
        assert(s.skip(4) =~= t);
    } else {
        assert(s[0] == c);
        assert(s.len() < 5 || s.take(5)[0] != '&');
        assert(s.len() < 4 || s.take(4)[0] != '&');
        assert(s.skip(1) =~= t);
    }
}

/// Unescaping escaped text gives back the text: `escape_html` loses nothing.
pub proof fn law_escape_round_trip(s: Seq<char>)
    ensures
        unescape_seq(escape_seq(s)) == s,
    decreases s.len(),
{
    if s.len() > 0 {
        let t = s.skip(1);
        law_escape_round_trip(t);
        assert(s =~= seq![s[0]] + t);
        lemma_escape_concat(seq![s[0]], t);
        assert(escape_seq(seq![s[0]]) =~= escape_char(s[0])) by {
            let one = seq![s[0]];
            assert(one.drop_last() =~= Seq::<char>::empty());
            assert(escape_seq(one.drop_last()) == Seq::<char>::empty());
            assert(one.last() == s[0]);
            assert(Seq::<char>::empty() + escape_char(s[0]) =~= escape_char(s[0]));
        }
        lemma_unescape_step(s[0], escape_seq(t));
        assert(seq![s[0]] + t =~= s);
    }
}

/// Different texts never escape to the same HTML.
pub proof fn law_escape_injective(s1: Seq<char>, s2: Seq<char>)
    requires
        escape_seq(s1) == escape_seq(s2),
    ensures
        s1 == s2,
{
    law_escape_round_trip(s1);
    law_escape_round_trip(s2);
}

/// Opening tag of the rendered front-matter block.
pub const FRONTMATTER_OPEN: &'static str = "<pre class=\"mdview-frontmatter\">";

/// Closing tag of the rendered front-matter block.
pub const FRONTMATTER_CLOSE: &'static str = "</pre>\n";

/// Whether every character of `s` is white space.
pub open spec fn all_white_space(s: Seq<char>) -> bool {
    forall|i: int| 0 <= i < s.len() ==> is_white_space(#[trigger] s[i])
}

/// The front-matter text that is shown: line endings normalised to `\n`, and
/// leading and trailing line feeds removed.
pub open spec fn frontmatter_text(fm: Seq<char>) -> Seq<char> {
    trim(replace_all(fm, seq!['\r', '\n'], seq!['\n']), TrimSet::LineFeeds)
}

/// The HTML for front matter `fm`: nothing when its text is blank, otherwise
/// the escaped text inside the dimmed `<pre>` block.
pub open spec fn spec_render_frontmatter(fm: Seq<char>) -> Seq<char> {
    let t = frontmatter_text(fm);
    if all_white_space(t) {
        Seq::empty()
    } else {
        FRONTMATTER_OPEN@ + escape_seq(t) + FRONTMATTER_CLOSE@
    }
}

/// Rendered front matter is either nothing (when its text is blank) or the
/// dimmed block around text that holds no `<` or `>`, so front matter can
/// never inject markup into the page.
pub proof fn law_frontmatter_block_is_inert(fm: Seq<char>)
    ensures
        spec_render_frontmatter(fm).len() == 0 || exists|t: Seq<char>|
            {
                &&& spec_render_frontmatter(fm) == FRONTMATTER_OPEN@ + t + FRONTMATTER_CLOSE@
                &&& forall|i: int| 0 <= i < t.len() ==> t[i] != '<' && t[i] != '>'
            },
{
    let t = escape_seq(frontmatter_text(fm));
    lemma_escape_no_angle(frontmatter_text(fm));
    if !all_white_space(frontmatter_text(fm)) {
        assert(spec_render_frontmatter(fm) == FRONTMATTER_OPEN@ + t + FRONTMATTER_CLOSE@);
    }
}

/// Normalising line endings turns a leading line feed into itself.
proof fn lemma_normalize_leading_lf(b: Seq<char>)
    ensures
        replace_all(seq!['\n'] + b, seq!['\r', '\n'], seq!['\n']) == seq!['\n'] + replace_all(
            b,
            seq!['\r', '\n'],
            seq!['\n'],
        ),
{
    let s = seq!['\n'] + b;
    let crlf = seq!['\r', '\n'];
    if occurs_at(s, 0, crlf) {
        assert(s.subrange(0, 2)[0] == crlf[0]);
    }
    assert(s.skip(1) =~= b);
    assert(s[0] == '\n');
}

/// Normalising line endings in `a + rest`, where `a` does not end with a
/// carriage return, normalises `a` and `rest` separately.
proof fn lemma_normalize_split(a: Seq<char>, rest: Seq<char>)
    requires
        a.len() == 0 || a.last() != '\r',
    ensures
        replace_all(a + rest, seq!['\r', '\n'], seq!['\n']) == replace_all(
            a,
            seq!['\r', '\n'],
            seq!['\n'],
        ) + replace_all(rest, seq!['\r', '\n'], seq!['\n']),
{
    let crlf = seq!['\r', '\n'];
    assert forall|i: int| 0 <= i < a.len() < i + crlf.len() implies !occurs_at(
        a + rest,
        i,
        crlf,
    ) by {
        if occurs_at(a + rest, i, crlf) {
            assert((a + rest).subrange(i, i + 2)[0] == crlf[0]);
            assert((a + rest)[i] == a.last());
        }
    }
    lemma_replace_split(a, rest, crlf, seq!['\n']);
}

/// Front matter that is already normalised (no carriage return, no line feed
/// at either end) and not blank is shown whole: the block holds the escape of
/// every one of its characters, blank lines inside it included.
pub proof fn law_frontmatter_shown_whole(fm: Seq<char>)
    requires
        !fm.contains('\r'),
        fm.len() > 0,
        fm[0] != '\n',
        fm.last() != '\n',
        exists|i: int| 0 <= i < fm.len() && !is_white_space(#[trigger] fm[i]),
    ensures
        spec_render_frontmatter(fm) == FRONTMATTER_OPEN@ + escape_seq(fm) + FRONTMATTER_CLOSE@,
{
    let crlf = seq!['\r', '\n'];
    if contains_seq(fm, crlf) {
        let i = choose|i: int| occurs_at(fm, i, crlf);
        assert(fm.subrange(i, i + 2)[0] == crlf[0]);
        assert(fm[i] == '\r');
    }
    lemma_replace_absent(fm, crlf, seq!['\n']);
    assert(trim_start(fm, TrimSet::LineFeeds) == fm);
    assert(trim_end(fm, TrimSet::LineFeeds) == fm);
    assert(frontmatter_text(fm) == fm);
    let i = choose|i: int| 0 <= i < fm.len() && !is_white_space(#[trigger] fm[i]);
    assert(!all_white_space(fm));
}

/// Line endings do not matter: a CRLF in the front matter renders as a plain
/// line feed would (unless it follows another carriage return).
pub proof fn law_frontmatter_line_endings(a: Seq<char>, b: Seq<char>)
    requires
        a.len() == 0 || a.last() != '\r',
    ensures
        spec_render_frontmatter(a + seq!['\r', '\n'] + b) == spec_render_frontmatter(
            a + seq!['\n'] + b,
        ),
{
    let crlf = seq!['\r', '\n'];
    let lf = seq!['\n'];
    assert(a + crlf + b =~= a + (crlf + b));
    assert(a + lf + b =~= a + (lf + b));
    lemma_normalize_split(a, crlf + b);
    lemma_normalize_split(a, lf + b);
    lemma_replace_leading(b, crlf, lf);
    lemma_normalize_leading_lf(b);
    assert(frontmatter_text(a + crlf + b) == frontmatter_text(a + lf + b));
}

/// Line feeds around the front matter are not shown: one more at the start,
/// or at the end (after anything but a carriage return), renders the same.
pub proof fn law_frontmatter_outer_line_feeds(fm: Seq<char>)
    ensures
        spec_render_frontmatter(seq!['\n'] + fm) == spec_render_frontmatter(fm),
        fm.len() == 0 || fm.last() != '\r' ==> spec_render_frontmatter(fm + seq!['\n'])
            == spec_render_frontmatter(fm),
{
    let crlf = seq!['\r', '\n'];
    let lf = seq!['\n'];
    let n = replace_all(fm, crlf, lf);
    lemma_normalize_leading_lf(fm);
    assert((lf + n).drop_first() =~= n);
    assert(trim_start(lf + n, TrimSet::LineFeeds) == trim_start(n, TrimSet::LineFeeds));
    assert(frontmatter_text(lf + fm) == frontmatter_text(fm));
    if fm.len() == 0 || fm.last() != '\r' {
        lemma_normalize_split(fm, lf);
        lemma_normalize_leading_lf(Seq::empty());
        assert(lf + Seq::<char>::empty() =~= lf);
        assert(replace_all(Seq::<char>::empty(), crlf, lf) == Seq::<char>::empty());
        assert(replace_all(fm + lf, crlf, lf) == n + lf);
        lemma_trim_start_append(n, lf, TrimSet::LineFeeds);
        let t = trim_start(n, TrimSet::LineFeeds);
        if t.len() > 0 {
            assert((t + lf).drop_last() =~= t);
            assert(trim_end(t + lf, TrimSet::LineFeeds) == trim_end(t, TrimSet::LineFeeds));
        } else {
            assert(lf.drop_first() =~= Seq::<char>::empty());
            assert(trim_start(lf, TrimSet::LineFeeds) == trim_start(
                Seq::<char>::empty(),
                TrimSet::LineFeeds,
            ));
        }
        assert(frontmatter_text(fm + lf) == frontmatter_text(fm));
    }
}

/// Render captured front matter as a dimmed, comment-style block.
pub fn render_frontmatter(frontmatter: &str) -> (out: String)
    ensures
        out@ == spec_render_frontmatter(frontmatter@),
{
    let chars = chars_of(frontmatter);
    let crlf: Vec<char> = vec!['\r', '\n'];
    let lf: Vec<char> = vec!['\n'];
    assert(crlf@ =~= seq!['\r', '\n']);
    assert(lf@ =~= seq!['\n']);
    let normalized = replace_chars(&chars, &crlf, &lf);
    let trimmed = trim_chars(&normalized, TrimSet::LineFeeds);
    let mut blank = true;
    for i in 0..trimmed.len()
        invariant
            blank == (forall|j: int| 0 <= j < i ==> is_white_space(#[trigger] trimmed@[j])),
    {
        if !white_space(trimmed[i]) {
            blank = false;
        }
    }
    if blank {
        return String::new();
    }
    let text = string_of_chars(&trimmed);
    let escaped = escape_html(text.as_str());
    let mut out = String::from_str(FRONTMATTER_OPEN);
    out.append(escaped.as_str());
    out.append(FRONTMATTER_CLOSE);
    out
}

} // verus!
