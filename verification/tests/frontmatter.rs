use mdview::frontmatter::{FRONTMATTER_CLOSE, FRONTMATTER_OPEN};
use mdview::render::{
    ENABLE_FOOTNOTES, ENABLE_STRIKETHROUGH, ENABLE_TABLES, ENABLE_TASKLISTS, HTML_OPTIONS, PLAIN_OPTIONS,
};
use mdview::{escape_html, markdown_to_html, render_frontmatter, split_frontmatter};
use pulldown_cmark::{html, Options, Parser};

/// A direct line-by-line statement of the front-matter rule, for comparison.
fn expected_split(markdown: &str) -> Option<(String, String)> {
    let src = markdown.strip_prefix('\u{feff}').unwrap_or(markdown);
    let mut lines = src.split_inclusive('\n');
    let first = lines.next()?;
    if !first.ends_with('\n') || first[..first.len() - 1].trim_end_matches('\r') != "---" {
        return None;
    }
    let mut fm = String::new();
    let mut consumed = first.len();
    for line in lines {
        consumed += line.len();
        let bare = line.strip_suffix('\n').unwrap_or(line).trim_end_matches('\r');
        if bare == "---" || bare == "..." {
            return Some((fm, src[consumed..].to_string()));
        }
        fm.push_str(line);
    }
    None
}

fn cmark(md: &str) -> String {
    let mut out = String::new();
    html::push_html(&mut out, Parser::new_ext(md, Options::from_bits_truncate(HTML_OPTIONS)));
    out
}

#[test]
fn split_frontmatter_cases() {
    let cases = [
        "---\ntitle: Hello\n---\n\n# Body\n",
        "---\ntitle: X\n...\n\nbody\n",
        "\u{feff}---\nk: v\n---\nbody",
        "---\r\nk: v\r\n---\r\nbody\r\n",
        "---\r\r\nk: v\n...\r\r\nrest",
        "---\nk: v\n---",
        "---\n---\n",
        "---\n",
        "---",
        "---\nno close\n",
        "intro\n\n---\n\nmore\n",
        " ---\nk\n---\n",
        "----\nk\n---\n",
        "---\na\n--- \nb\n---\nc\n",
        "",
        "---\n\n\n---\n",
    ];
    for md in cases {
        let got = split_frontmatter(md).map(|(a, b)| (a.to_string(), b.to_string()));
        assert_eq!(got, expected_split(md), "{:?}", md);
    }
}

#[test]
fn split_frontmatter_exact_parts() {
    assert_eq!(split_frontmatter("---\ntitle: Hello\n---\n\n# Body\n"), Some(("title: Hello\n", "\n# Body\n")));
    assert_eq!(split_frontmatter("---\nk: v\n---"), Some(("k: v\n", "")));
    assert_eq!(split_frontmatter("\u{feff}---\n---\nrest"), Some(("", "rest")));
    assert_eq!(split_frontmatter("---\nk: v\n"), None);
    assert_eq!(split_frontmatter("# Title\n---\n"), None);
}

#[test]
fn escape_html_exact() {
    assert_eq!(escape_html("a<b>&c"), "a&lt;b&gt;&amp;c");
    assert_eq!(escape_html(""), "");
    assert_eq!(escape_html("plain \"quotes\" 'stay'"), "plain \"quotes\" 'stay'");
    assert_eq!(escape_html("&amp;"), "&amp;amp;");
    assert_eq!(escape_html("<<>>"), "&lt;&lt;&gt;&gt;");
}

#[test]
fn render_frontmatter_exact() {
    assert_eq!(render_frontmatter("title: X\n"), "<pre class=\"mdview-frontmatter\">title: X</pre>\n");
    assert_eq!(render_frontmatter("\r\nk: v\r\nw: <x>\r\n\r\n"), "<pre class=\"mdview-frontmatter\">k: v\nw: &lt;x&gt;</pre>\n");
    assert_eq!(render_frontmatter("  \n \t\n"), "");
    assert_eq!(render_frontmatter("\n\n"), "");
    assert_eq!(render_frontmatter(""), "");
    assert_eq!(render_frontmatter(" indented\n"), "<pre class=\"mdview-frontmatter\"> indented</pre>\n");
    assert_eq!(FRONTMATTER_OPEN, "<pre class=\"mdview-frontmatter\">");
    assert_eq!(FRONTMATTER_CLOSE, "</pre>\n");
}

#[test]
fn markdown_to_html_is_frontmatter_then_body() {
    let md = "---\ntitle: <b>\n---\n\n# Body\n\n| a | b |\n|---|---|\n| 1 | 2 |\n";
    let (fm, body) = split_frontmatter(md).unwrap();
    assert_eq!(markdown_to_html(md), render_frontmatter(fm) + &cmark(body));
    assert!(markdown_to_html(md).contains("<table>"));
}

#[test]
fn markdown_without_frontmatter_is_rendered_whole() {
    for md in ["intro\n\n---\n\nmore\n", "~~gone~~ and - [x] done\n", "text[^1]\n\n[^1]: note\n", ""] {
        assert_eq!(markdown_to_html(md), cmark(md));
    }
    assert!(markdown_to_html("~~gone~~").contains("<del>gone</del>"));
    assert!(markdown_to_html("- [x] done").contains("checkbox"));
}

#[test]
fn blank_frontmatter_renders_nothing_ahead_of_body() {
    let md = "---\n\n---\n# T\n";
    assert_eq!(markdown_to_html(md), cmark("# T\n"));
}

#[test]
fn option_bits_match_the_parser_flags() {
    assert_eq!(ENABLE_TABLES, Options::ENABLE_TABLES.bits());
    assert_eq!(ENABLE_FOOTNOTES, Options::ENABLE_FOOTNOTES.bits());
    assert_eq!(ENABLE_STRIKETHROUGH, Options::ENABLE_STRIKETHROUGH.bits());
    assert_eq!(ENABLE_TASKLISTS, Options::ENABLE_TASKLISTS.bits());
    let mut o = Options::empty();
    o.insert(Options::ENABLE_TABLES);
    o.insert(Options::ENABLE_FOOTNOTES);
    o.insert(Options::ENABLE_STRIKETHROUGH);
    o.insert(Options::ENABLE_TASKLISTS);
    assert_eq!(HTML_OPTIONS, o.bits());
    assert_eq!(PLAIN_OPTIONS, Options::empty().bits());
}

/// Left-to-right unescaping of `&amp;`, `&lt;` and `&gt;`.
fn unescape(s: &str) -> String {
    let mut out = String::new();
    let mut rest = s;
    while !rest.is_empty() {
        if let Some(r) = rest.strip_prefix("&amp;") {
            out.push('&');
            rest = r;
        } else if let Some(r) = rest.strip_prefix("&lt;") {
            out.push('<');
            rest = r;
        } else if let Some(r) = rest.strip_prefix("&gt;") {
            out.push('>');
            rest = r;
        } else {
            let c = rest.chars().next().unwrap();
            out.push(c);
            rest = &rest[c.len_utf8()..];
        }
    }
    out
}

#[test]
fn escape_html_round_trips() {
    let samples = ["", "a<b>&c", "&amp;", "&lt;&gt;", "<<&&>>", "plain", "&l", "é & 黑 <x>", "&gt"];
    for s in samples {
        assert_eq!(unescape(&escape_html(s)), s);
    }
    for a in samples {
        for b in samples {
            if a != b {
                assert_ne!(escape_html(a), escape_html(b));
            }
        }
    }
}
