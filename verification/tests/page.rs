use mdview::page::{
    FIND_MARKUP, PAGE_HEAD, PAGE_TAIL, SCRIPT_OPEN, STYLE_END, STYLE_TEMPLATE, TOC_MARKUP,
    VIEWER_SCRIPT_FIFTH, VIEWER_SCRIPT_FIRST, VIEWER_SCRIPT_FOURTH, VIEWER_SCRIPT_SECOND,
    VIEWER_SCRIPT_THIRD,
};
use mdview::wrap_html;

fn script() -> String {
    [VIEWER_SCRIPT_FIRST, VIEWER_SCRIPT_SECOND, VIEWER_SCRIPT_THIRD, VIEWER_SCRIPT_FOURTH, VIEWER_SCRIPT_FIFTH].concat()
}

/// The page written directly with `str::replace`, for comparison.
fn expected_page(content: &str, dark: bool) -> String {
    let c = if dark {
        ["#1e1e1e", "#d4d4d4", "#2d2d2d", "#58a6ff", "#444", "#252526", "#2d2d30", "#37373d", "#8b949e"]
    } else {
        ["#ffffff", "#24292e", "#f6f8fa", "#0366d6", "#e1e4e8", "#f6f8fa", "#eaeef2", "#dbe9ff", "#6a737d"]
    };
    let content = content
        .replace("src=\"/", "src=\"")
        .replace("href=\"/", "href=\"")
        .replace("src='/", "src='")
        .replace("href='/", "href='");
    let styles = STYLE_TEMPLATE
        .replace("%%BG%%", c[0])
        .replace("%%TEXT%%", c[1])
        .replace("%%CODE_BG%%", c[2])
        .replace("%%LINK%%", c[3])
        .replace("%%BORDER%%", c[4])
        .replace("%%TOC_BG%%", c[5])
        .replace("%%TOC_HOVER%%", c[6])
        .replace("%%TOC_ACTIVE%%", c[7])
        .replace("%%MUTED%%", c[8]);
    let mut out = String::new();
    out.push_str("<!DOCTYPE html>\n<html>\n<head>\n<meta charset=\"UTF-8\">\n<style>");
    out.push_str(&styles);
    out.push_str("</style>\n</head>\n<body>\n");
    out.push_str(TOC_MARKUP);
    out.push_str(FIND_MARKUP);
    out.push_str(&content);
    out.push_str("\n<script>");
    out.push_str(&script());
    out.push_str("</script>\n</body>\n</html>");
    out
}

#[test]
fn wrap_html_matches_direct_assembly() {
    for content in ["", "<h1>Title</h1>", "<img src=\"/a.png\"><a href='/b'>b</a>", "<p>é 黑</p>"] {
        for dark in [false, true] {
            assert_eq!(wrap_html(content, dark), expected_page(content, dark));
        }
    }
}

#[test]
fn wrap_html_page_frame() {
    let page = wrap_html("<p>x</p>", false);
    assert_eq!(PAGE_HEAD, "<!DOCTYPE html>\n<html>\n<head>\n<meta charset=\"UTF-8\">\n<style>");
    assert_eq!(STYLE_END, "</style>\n</head>\n<body>\n");
    assert_eq!(SCRIPT_OPEN, "\n<script>");
    assert_eq!(PAGE_TAIL, "</script>\n</body>\n</html>");
    assert!(page.starts_with(PAGE_HEAD));
    assert!(page.ends_with(PAGE_TAIL));
    assert!(page.contains("<p>x</p>\n<script>"));
    assert!(page.contains("id=\"mdview-find\""));
}

#[test]
fn wrap_html_makes_root_relative_urls_relative() {
    let page = wrap_html("<img src=\"/a.png\"><a href=\"/b.md\">b</a><img src='/c'><a href='/d'>d</a>", true);
    assert!(page.contains("<img src=\"a.png\"><a href=\"b.md\">b</a><img src='c'><a href='d'>d</a>"));
}

#[test]
fn wrap_html_keeps_relative_urls() {
    let content = "<a href=\"../README.md#top\">Guide</a><img src=\"../assets/screenshot.png\"><a href=\"#top\">Top</a>";
    assert!(wrap_html(content, false).contains(content));
}

#[test]
fn wrap_html_substitutes_every_placeholder_in_both_palettes() {
    for dark in [false, true] {
        let page = wrap_html("<h1>Title</h1>", dark);
        assert!(!page.contains("%%"));
    }
    let light = wrap_html("", false);
    for color in ["#ffffff", "#24292e", "#f6f8fa", "#0366d6", "#e1e4e8", "#eaeef2", "#dbe9ff", "#6a737d"] {
        assert!(light.contains(color), "{}", color);
    }
    let dark = wrap_html("", true);
    for color in ["#1e1e1e", "#d4d4d4", "#2d2d2d", "#58a6ff", "#444", "#252526", "#2d2d30", "#37373d", "#8b949e"] {
        assert!(dark.contains(color), "{}", color);
    }
    assert!(!dark.contains("#ffffff"));
}

#[test]
fn wrap_html_scaffolding_for_any_content() {
    for content in ["", "plain", "<h2>x</h2>"] {
        let page = wrap_html(content, true);
        assert!(page.contains("id=\"mdview-toc\""));
        assert!(page.contains("id=\"mdview-toc-list\""));
        assert!(page.contains("id=\"mdview-toc-toggle\""));
    }
}

#[test]
fn wrap_html_adds_no_double_percent_to_content_with_single_percents() {
    for dark in [false, true] {
        let page = wrap_html("<p>50% off</p><a href='/%7Euser'>home</a><img src=\"/%\">", dark);
        assert!(!page.contains("%%"));
        assert!(page.contains("<a href='%7Euser'>home</a><img src=\"%\">"));
    }
}

#[test]
fn wrap_html_palette_changes_only_the_stylesheet() {
    for content in ["<h1>Title</h1>", "", "<img src=\"/a.png\">"] {
        let a = wrap_html(content, true);
        let b = wrap_html(content, false);
        let (sa, sb) = (a.find("<style>").unwrap(), b.find("<style>").unwrap());
        let (ea, eb) = (a.find("</style>").unwrap(), b.find("</style>").unwrap());
        assert_eq!(a[..sa], b[..sb]);
        assert_eq!(a[ea..], b[eb..]);
        assert_ne!(a[sa..ea], b[sb..eb]);
        assert!(!a[sa + 1..ea].contains('<'));
        assert!(!b[sb + 1..eb].contains('<'));
    }
}
