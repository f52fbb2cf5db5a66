use mdview::render::PlainEvent::{
    BlockQuoteEnd, BlockQuoteStart, CodeBlockEnd, CodeBlockStart, HardLineBreak, HeadingEnd,
    HeadingStart, InlineCode, ItemEnd, ItemStart, ListEnd, ListStart, ParagraphEnd,
    ParagraphStart, SoftLineBreak, TextRun, Unrendered,
};
use mdview::{markdown_to_plain_text, plain_text_from_events};
use pulldown_cmark::{Event, Options, Parser, Tag, TagEnd};

/// The plain-text rule written directly over the parser's events, for comparison.
fn expected_plain_text(markdown: &str) -> String {
    let mut output = String::new();
    for event in Parser::new_ext(markdown, Options::empty()) {
        match event {
            Event::Text(text) => output.push_str(&text),
            Event::Code(code) => {
                output.push('`');
                output.push_str(&code);
                output.push('`');
            }
            Event::SoftBreak | Event::HardBreak => output.push('\n'),
            Event::End(TagEnd::Paragraph) | Event::End(TagEnd::Heading(_)) => output.push_str("\n\n"),
            Event::Start(Tag::CodeBlock(_)) => output.push_str("\n```\n"),
            Event::End(TagEnd::CodeBlock) => output.push_str("```\n\n"),
            Event::End(TagEnd::List(_)) | Event::End(TagEnd::Item) | Event::End(TagEnd::BlockQuote(_)) => {
                output.push('\n')
            }
            Event::Start(Tag::Item) => output.push_str("  - "),
            Event::Start(Tag::BlockQuote(_)) => output.push_str("> "),
            _ => {}
        }
    }
    output.trim().to_string()
}

#[test]
fn plain_text_from_events_exact() {
    let events = vec![
        HeadingStart,
        TextRun("Title".to_string()),
        HeadingEnd,
        ParagraphStart,
        TextRun("a".to_string()),
        SoftLineBreak,
        InlineCode("x".to_string()),
        HardLineBreak,
        Unrendered,
        ParagraphEnd,
    ];
    assert_eq!(plain_text_from_events(&events), "Title\n\na\n`x`");
}

#[test]
fn plain_text_from_block_events() {
    let events = vec![
        ListStart,
        ItemStart,
        TextRun("one".to_string()),
        ItemEnd,
        ListEnd,
        BlockQuoteStart,
        ParagraphStart,
        TextRun("q".to_string()),
        ParagraphEnd,
        BlockQuoteEnd,
        CodeBlockStart,
        TextRun("code\n".to_string()),
        CodeBlockEnd,
    ];
    assert_eq!(plain_text_from_events(&events), "- one\n\n> q\n\n\n\n```\ncode\n```");
}

#[test]
fn plain_text_of_nothing_is_empty() {
    assert_eq!(plain_text_from_events(&Vec::new()), "");
    assert_eq!(plain_text_from_events(&vec![TextRun(" \n\t".to_string())]), "");
    assert_eq!(markdown_to_plain_text(""), "");
}

#[test]
fn markdown_to_plain_text_examples() {
    assert_eq!(markdown_to_plain_text("# Title\n\nHello *world*"), "Title\n\nHello world");
    assert_eq!(markdown_to_plain_text("Use `cargo test`."), "Use `cargo test`.");
    let docs = [
        "# Title\n\nHello *world*\n\n- one\n- two\n\n> quote\n\n```\ncode\n```\n",
        "line one\nline two  \nline three",
        "1. a\n2. b\n\n| t | u |\n|---|---|\n| 1 | 2 |\n",
        "~~strike~~ [link](http://x) ![img](y.png)",
        "   \n\n  indented code\n",
        "<div>html</div>\n\ntext",
    ];
    for md in docs {
        assert_eq!(markdown_to_plain_text(md), expected_plain_text(md), "{:?}", md);
    }
}

#[test]
fn plain_text_has_no_surrounding_white_space() {
    for md in ["\n\n# A\n\n", "  x  ", "> q\n", "- item\n"] {
        let t = markdown_to_plain_text(md);
        assert_eq!(t, t.trim());
    }
}
