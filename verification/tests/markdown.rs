use mdview::{markdown_to_html, wrap_html};

#[test]
fn test_basic_markdown() {
    let md = "# Hello\n\nThis is **bold** and *italic*.";
    let html = markdown_to_html(md);
    assert!(html.contains("<h1>Hello</h1>"));
    assert!(html.contains("<strong>bold</strong>"));
    assert!(html.contains("<em>italic</em>"));
}

#[test]
fn test_code_block() {
    let md = "```rust\nfn main() {}\n```";
    let html = markdown_to_html(md);
    assert!(html.contains("<code"));
    assert!(html.contains("fn main()"));
}

#[test]
fn test_preserve_relative_urls() {
    let md = "[Guide](../README.md#top)\n\n![Img](../assets/screenshot.png)\n\n[Top](#top)";
    let html = markdown_to_html(md);
    assert!(html.contains("href=\"../README.md#top\""));
    assert!(html.contains("src=\"../assets/screenshot.png\""));
    assert!(html.contains("href=\"#top\""));
}

#[test]
fn test_wrap_html_includes_toc_scaffolding() {
    let html = wrap_html("<h1>Title</h1>", false);
    assert!(html.contains("id=\"mdview-toc\""));
    assert!(html.contains("id=\"mdview-toc-list\""));
    assert!(html.contains("id=\"mdview-toc-toggle\""));
    // Color placeholders must all be substituted.
    assert!(!html.contains("%%"));
}

#[test]
fn test_frontmatter_rendered_as_comment_block() {
    let md = "---\ntitle: Hello\ndate: 2026-07-29\n---\n\n# Body\n";
    let html = markdown_to_html(md);
    assert!(html.contains("class=\"mdview-frontmatter\""));
    assert!(html.contains("title: Hello"));
    assert!(html.contains("<h1>Body</h1>"));
    let fm_pos = html.find("mdview-frontmatter").unwrap();
    let h1_pos = html.find("<h1>").unwrap();
    assert!(fm_pos < h1_pos, "front matter must precede the body");
    assert!(!html.contains("<hr"), "delimiters must not become <hr>");
}

#[test]
fn test_frontmatter_closing_dots() {
    let md = "---\ntitle: X\n...\n\nbody\n";
    let html = markdown_to_html(md);
    assert!(html.contains("class=\"mdview-frontmatter\""));
    assert!(html.contains("title: X"));
}

#[test]
fn test_frontmatter_html_escaped() {
    let md = "---\ntitle: <b>& stuff</b>\n---\n\nbody\n";
    let html = markdown_to_html(md);
    assert!(html.contains("&lt;b&gt;&amp; stuff"));
    assert!(!html.contains("<b>& stuff"));
}

#[test]
fn test_lone_thematic_break_is_not_frontmatter() {
    // A `---` that is not a closed leading block stays a thematic break.
    let md = "intro\n\n---\n\nmore\n";
    let html = markdown_to_html(md);
    assert!(!html.contains("mdview-frontmatter"));
    assert!(html.contains("<hr"));
}

#[test]
fn test_wrap_html_dark_mode_colors() {
    let dark = wrap_html("<h1>Title</h1>", true);
    assert!(dark.contains("#1e1e1e"));
    let light = wrap_html("<h1>Title</h1>", false);
    assert!(light.contains("#ffffff"));
}
