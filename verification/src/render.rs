//! Markdown to HTML and to plain text. The CommonMark parsing itself is done by
//! `pulldown_cmark`; what the library decides around it (front matter, the
//! parser options, how events become plain text) is verified here.

use vstd::prelude::*;
use vstd::string::*;
use pulldown_cmark::Event::{Code, End, HardBreak, SoftBreak, Start, Text};
use pulldown_cmark::{html, Options, Parser, Tag, TagEnd};
use crate::frontmatter::{
    bom_len, is_open_delim, law_no_opening_line_no_frontmatter, render_frontmatter,
    spec_render_frontmatter, spec_split_frontmatter, split_frontmatter,
};
use crate::text::{
    chars_of, in_trim_set, lemma_trim_edges, string_of, trim, trim_chars, TrimSet,
};
use crate::render::PlainEvent::{
    BlockQuoteEnd, BlockQuoteStart, CodeBlockEnd, CodeBlockStart, HardLineBreak, HeadingEnd,
    HeadingStart, InlineCode, ItemEnd, ItemStart, ListEnd, ListStart, ParagraphEnd,
    ParagraphStart, SoftLineBreak, TextRun, Unrendered,
};

verus! {

/// Bit of `pulldown_cmark::Options::ENABLE_TABLES`.
pub const ENABLE_TABLES: u32 = 2;

/// Bit of `pulldown_cmark::Options::ENABLE_FOOTNOTES`.
pub const ENABLE_FOOTNOTES: u32 = 4;

/// Bit of `pulldown_cmark::Options::ENABLE_STRIKETHROUGH`.
pub const ENABLE_STRIKETHROUGH: u32 = 8;

/// Bit of `pulldown_cmark::Options::ENABLE_TASKLISTS`.
pub const ENABLE_TASKLISTS: u32 = 16;

/// The parser options for HTML rendering: tables, footnotes, strikethrough and
/// task lists (GitHub-flavoured extensions).
pub const HTML_OPTIONS: u32 = ENABLE_TABLES | ENABLE_FOOTNOTES | ENABLE_STRIKETHROUGH
    | ENABLE_TASKLISTS;

/// The parser options for plain-text extraction: plain CommonMark.
pub const PLAIN_OPTIONS: u32 = 0;

/// The HTML that `pulldown_cmark` renders for `markdown` parsed with the
/// option bits `options`.
pub uninterp spec fn cmark_html(markdown: Seq<char>, options: u32) -> Seq<char>;

/// Appends to `out` the HTML of `markdown`: `pulldown_cmark::html::push_html`
/// over `pulldown_cmark::Parser::new_ext(markdown, options)`. The crate documents
/// `push_html` as pushing the generated HTML onto the string; what that HTML
/// is, is named `cmark_html` and not stated.
#[verifier::external_body]
fn push_cmark_html(out: &mut String, markdown: &str, options: u32)
    ensures
        final(out)@ == old(out)@ + cmark_html(markdown@, options),
{
    html::push_html(out, Parser::new_ext(markdown, Options::from_bits_truncate(options)));
}

/// The HTML document body for `md`: the rendered front matter (if any) first,
/// then the CommonMark HTML of the rest.
pub open spec fn spec_markdown_to_html(md: Seq<char>) -> Seq<char> {
    match spec_split_frontmatter(md) {
        Some((fm, body)) => spec_render_frontmatter(fm) + cmark_html(body, HTML_OPTIONS),
        None => cmark_html(md, HTML_OPTIONS),
    }
}

/// When a document has front matter, its HTML is the rendered front matter
/// followed by the HTML of the body alone: the front matter comes first, and
/// the delimiter lines are not rendered as Markdown.
pub proof fn law_frontmatter_precedes_body(md: Seq<char>)
    requires
        spec_split_frontmatter(md) is Some,
    ensures
        ({
            let (fm, body) = spec_split_frontmatter(md)->0;
            spec_markdown_to_html(md) == spec_render_frontmatter(fm) + cmark_html(
                body,
                HTML_OPTIONS,
            )
        }),
{
}

/// A document whose first line (after an optional byte-order mark) is not an
/// opening `---` line is rendered entirely as Markdown, so a later `---` stays
/// a thematic break.
pub proof fn law_plain_document_renders_whole(md: Seq<char>, first: Seq<char>, rest: Seq<char>)
    requires
        md.skip(bom_len(md)) == first + rest,
        !first.contains('\n'),
        rest.len() == 0 || rest[0] == '\n',
        !is_open_delim(first),
    ensures
        spec_markdown_to_html(md) == cmark_html(md, HTML_OPTIONS),
{
    law_no_opening_line_no_frontmatter(md, first, rest);
}

/// Converts Markdown to an HTML fragment; a leading front-matter block is shown
/// as a dimmed block ahead of the body instead of being parsed as Markdown.
pub fn markdown_to_html(markdown: &str) -> (html_output: String)
    ensures
        html_output@ == spec_markdown_to_html(markdown@),
{
    let (frontmatter_html, body) = match split_frontmatter(markdown) {
        Some((fm, rest)) => (render_frontmatter(fm), rest),
        None => (String::new(), markdown),
    };
    let mut html_output = String::new();
    html_output.append(frontmatter_html.as_str());
    push_cmark_html(&mut html_output, body, HTML_OPTIONS);
    html_output
}

/// A parser event, as far as plain-text extraction tells events apart.
pub enum PlainEvent {
    /// A text node.
    TextRun(String),
    /// An inline code span.
    InlineCode(String),
    /// A soft line break.
    SoftLineBreak,
    /// A hard line break.
    HardLineBreak,
    /// The start of a paragraph.
    ParagraphStart,
    /// The end of a paragraph.
    ParagraphEnd,
    /// The start of a heading.
    HeadingStart,
    /// The end of a heading.
    HeadingEnd,
    /// The start of a code block.
    CodeBlockStart,
    /// The end of a code block.
    CodeBlockEnd,
    /// The start of a list.
    ListStart,
    /// The end of a list.
    ListEnd,
    /// The start of a list item.
    ItemStart,
    /// The end of a list item.
    ItemEnd,
    /// The start of a block quote.
    BlockQuoteStart,
    /// The end of a block quote.
    BlockQuoteEnd,
    /// Any other event; it contributes no text.
    Unrendered,
}

/// The events `pulldown_cmark` produces for `markdown` with option bits `options`.
pub uninterp spec fn cmark_events(markdown: Seq<char>, options: u32) -> Seq<PlainEvent>;

/// The events of `pulldown_cmark::Parser::new_ext(markdown, options)`, each
/// converted to the `PlainEvent` of the same kind (text and code carry their
/// text). Which events come out is named `cmark_events` and not stated.
#[verifier::external_body]
fn parse_plain_events(markdown: &str, options: u32) -> (events: Vec<PlainEvent>)
    ensures
        events@ == cmark_events(markdown@, options),
{
    Parser::new_ext(markdown, Options::from_bits_truncate(options)).map(|e| match e {
        Text(t) => TextRun(t.to_string()), Code(c) => InlineCode(c.to_string()),
        SoftBreak => SoftLineBreak, HardBreak => HardLineBreak,
        Start(Tag::Paragraph) => ParagraphStart, End(TagEnd::Paragraph) => ParagraphEnd,
        Start(Tag::Heading { .. }) => HeadingStart, End(TagEnd::Heading(_)) => HeadingEnd,
        Start(Tag::CodeBlock(_)) => CodeBlockStart, End(TagEnd::CodeBlock) => CodeBlockEnd,
        Start(Tag::List(_)) => ListStart, End(TagEnd::List(_)) => ListEnd,
        Start(Tag::Item) => ItemStart, End(TagEnd::Item) => ItemEnd,
        Start(Tag::BlockQuote(_)) => BlockQuoteStart, End(TagEnd::BlockQuote(_)) => BlockQuoteEnd,
        _ => Unrendered,
    }).collect()
}

/// Text closing a paragraph or heading.
pub const BLOCK_BREAK: &'static str = "\n\n";

/// Text of a line break, and of the end of a list, item or block quote.
pub const LINE_BREAK: &'static str = "\n";

/// Text opening a code block.
pub const FENCE_OPEN: &'static str = "\n```\n";

/// Text closing a code block.
pub const FENCE_CLOSE: &'static str = "```\n\n";

/// Text opening a list item.
pub const ITEM_MARKER: &'static str = "  - ";

/// Text opening a block quote.
pub const QUOTE_MARKER: &'static str = "> ";

/// Delimiter around inline code.
pub const BACKTICK: &'static str = "`";

/// The plain text that one event contributes.
pub open spec fn event_text(e: PlainEvent) -> Seq<char> {
    match e {
        PlainEvent::TextRun(t) => t@,
        PlainEvent::InlineCode(c) => BACKTICK@ + c@ + BACKTICK@,
        PlainEvent::SoftLineBreak => LINE_BREAK@,
        PlainEvent::HardLineBreak => LINE_BREAK@,
        PlainEvent::ParagraphStart => Seq::empty(),
        PlainEvent::ParagraphEnd => BLOCK_BREAK@,
        PlainEvent::HeadingStart => Seq::empty(),
        PlainEvent::HeadingEnd => BLOCK_BREAK@,
        PlainEvent::CodeBlockStart => FENCE_OPEN@,
        PlainEvent::CodeBlockEnd => FENCE_CLOSE@,
        PlainEvent::ListStart => Seq::empty(),
        PlainEvent::ListEnd => LINE_BREAK@,
        PlainEvent::ItemStart => ITEM_MARKER@,
        PlainEvent::ItemEnd => LINE_BREAK@,
        PlainEvent::BlockQuoteStart => QUOTE_MARKER@,
        PlainEvent::BlockQuoteEnd => LINE_BREAK@,
        PlainEvent::Unrendered => Seq::empty(),
    }
}

/// The text of `events`, one after another.
pub open spec fn events_text(events: Seq<PlainEvent>) -> Seq<char>
    decreases events.len(),
{
    if events.len() == 0 {
        Seq::empty()
    } else {
        events_text(events.drop_last()) + event_text(events.last())
    }
}

/// The text of two runs of events, one after the other, is the text of the
/// first run followed by that of the second: every event contributes its text,
/// whatever stands before or after it.
pub proof fn law_events_text_concat(a: Seq<PlainEvent>, b: Seq<PlainEvent>)
    ensures
        events_text(a + b) == events_text(a) + events_text(b),
    decreases b.len(),
{
    if b.len() == 0 {
        assert(a + b =~= a);
    } else {
        law_events_text_concat(a, b.drop_last());
        assert((a + b).drop_last() =~= a + b.drop_last());
        assert((a + b).last() == b.last());
    }
}

/// What one event contributes on its own: a text run its text, inline code its
/// text between backticks, a line break a line feed, the end of a paragraph or
/// heading a blank line, a code block its fences, a list item its `  - `
/// marker and a line feed, a block quote `> ` and a line feed, the end of a
/// list a line feed, and every other event nothing.
pub proof fn law_event_texts(t: String, c: String)
    ensures
        events_text(seq![PlainEvent::TextRun(t)]) == t@,
        events_text(seq![PlainEvent::InlineCode(c)]) == seq!['`'] + c@ + seq!['`'],
        events_text(seq![PlainEvent::SoftLineBreak]) == seq!['\n'],
        events_text(seq![PlainEvent::HardLineBreak]) == seq!['\n'],
        events_text(seq![PlainEvent::ParagraphStart]) == Seq::<char>::empty(),
        events_text(seq![PlainEvent::ParagraphEnd]) == seq!['\n', '\n'],
        events_text(seq![PlainEvent::HeadingStart]) == Seq::<char>::empty(),
        events_text(seq![PlainEvent::HeadingEnd]) == seq!['\n', '\n'],
        events_text(seq![PlainEvent::CodeBlockStart]) == seq!['\n', '`', '`', '`', '\n'],
        events_text(seq![PlainEvent::CodeBlockEnd]) == seq!['`', '`', '`', '\n', '\n'],
        events_text(seq![PlainEvent::ListStart]) == Seq::<char>::empty(),
        events_text(seq![PlainEvent::ListEnd]) == seq!['\n'],
        events_text(seq![PlainEvent::ItemStart]) == seq![' ', ' ', '-', ' '],
        events_text(seq![PlainEvent::ItemEnd]) == seq!['\n'],
        events_text(seq![PlainEvent::BlockQuoteStart]) == seq!['>', ' '],
        events_text(seq![PlainEvent::BlockQuoteEnd]) == seq!['\n'],
        events_text(seq![PlainEvent::Unrendered]) == Seq::<char>::empty(),
{
    reveal_strlit("\n\n");
    reveal_strlit("\n");
    reveal_strlit("\n```\n");
    reveal_strlit("```\n\n");
    reveal_strlit("  - ");
    reveal_strlit("> ");
    reveal_strlit("`");
    assert forall|e: PlainEvent| #[trigger] events_text(seq![e]) == event_text(e) by {
        assert(seq![e].drop_last() =~= Seq::<PlainEvent>::empty());
        assert(events_text(Seq::<PlainEvent>::empty()) == Seq::<char>::empty());
        assert(seq![e].last() == e);
        assert(Seq::<char>::empty() + event_text(e) =~= event_text(e));
    }
    assert(events_text(seq![PlainEvent::TextRun(t)]) == t@);
    assert(events_text(seq![PlainEvent::InlineCode(c)]) =~= seq!['`'] + c@ + seq!['`']);
    assert(events_text(seq![PlainEvent::SoftLineBreak]) =~= seq!['\n']);
    assert(events_text(seq![PlainEvent::HardLineBreak]) =~= seq!['\n']);
    assert(events_text(seq![PlainEvent::ParagraphStart]) =~= Seq::<char>::empty());
    assert(events_text(seq![PlainEvent::ParagraphEnd]) =~= seq!['\n', '\n']);
    assert(events_text(seq![PlainEvent::HeadingStart]) =~= Seq::<char>::empty());
    assert(events_text(seq![PlainEvent::HeadingEnd]) =~= seq!['\n', '\n']);
    assert(events_text(seq![PlainEvent::CodeBlockStart]) =~= seq!['\n', '`', '`', '`', '\n']);
    assert(events_text(seq![PlainEvent::CodeBlockEnd]) =~= seq!['`', '`', '`', '\n', '\n']);
    assert(events_text(seq![PlainEvent::ListStart]) =~= Seq::<char>::empty());
    assert(events_text(seq![PlainEvent::ListEnd]) =~= seq!['\n']);
    assert(events_text(seq![PlainEvent::ItemStart]) =~= seq![' ', ' ', '-', ' ']);
    assert(events_text(seq![PlainEvent::ItemEnd]) =~= seq!['\n']);
    assert(events_text(seq![PlainEvent::BlockQuoteStart]) =~= seq!['>', ' ']);
    assert(events_text(seq![PlainEvent::BlockQuoteEnd]) =~= seq!['\n']);
    assert(events_text(seq![PlainEvent::Unrendered]) =~= Seq::<char>::empty());
}

/// The plain text of `events`: their text with surrounding white space trimmed.
pub open spec fn spec_plain_text(events: Seq<PlainEvent>) -> Seq<char> {
    trim(events_text(events), TrimSet::WhiteSpace)
}

/// Appends the plain text of `e` to `out`.
fn push_event_text(out: &mut String, e: &PlainEvent)
    ensures
        final(out)@ == old(out)@ + event_text(*e),
{
    match e {
        PlainEvent::TextRun(t) => out.append(t.as_str()),
        PlainEvent::InlineCode(c) => {
            out.append(BACKTICK);
            out.append(c.as_str());
            out.append(BACKTICK);
        },
        PlainEvent::SoftLineBreak => out.append(LINE_BREAK),
        PlainEvent::HardLineBreak => out.append(LINE_BREAK),
        PlainEvent::ParagraphStart => {},
        PlainEvent::ParagraphEnd => out.append(BLOCK_BREAK),
        PlainEvent::HeadingStart => {},
        PlainEvent::HeadingEnd => out.append(BLOCK_BREAK),
        PlainEvent::CodeBlockStart => out.append(FENCE_OPEN),
        PlainEvent::CodeBlockEnd => out.append(FENCE_CLOSE),
        PlainEvent::ListStart => {},
        PlainEvent::ListEnd => out.append(LINE_BREAK),
        PlainEvent::ItemStart => out.append(ITEM_MARKER),
        PlainEvent::ItemEnd => out.append(LINE_BREAK),
        PlainEvent::BlockQuoteStart => out.append(QUOTE_MARKER),
        PlainEvent::BlockQuoteEnd => out.append(LINE_BREAK),
        PlainEvent::Unrendered => {},
    }
    proof {
        assert(out@ =~= old(out)@ + event_text(*e));
    }
}

/// The plain text of a sequence of parser events: each event's text in order,
/// then surrounding white space trimmed.
pub fn plain_text_from_events(events: &Vec<PlainEvent>) -> (text: String)
    ensures
        text@ == spec_plain_text(events@),
        text@.len() > 0 ==> !in_trim_set(TrimSet::WhiteSpace, text@[0]),
        text@.len() > 0 ==> !in_trim_set(TrimSet::WhiteSpace, text@.last()),
{
    let mut output = String::new();
    for i in 0..events.len()
        invariant
            output@ == events_text(events@.take(i as int)),
    {
        push_event_text(&mut output, &events[i]);
        proof {
            assert(events@.take(i + 1).drop_last() =~= events@.take(i as int));
        }
    }
    proof {
        assert(events@.take(events@.len() as int) =~= events@);
    }
    let chars = chars_of(output.as_str());
    let trimmed = trim_chars(&chars, TrimSet::WhiteSpace);
    proof {
        lemma_trim_edges(chars@, TrimSet::WhiteSpace);
    }
    string_of(&trimmed)
}

/// Converts Markdown (plain CommonMark) to plain text.
pub fn markdown_to_plain_text(markdown: &str) -> (text: String)
    ensures
        text@ == spec_plain_text(cmark_events(markdown@, PLAIN_OPTIONS)),
        text@.len() > 0 ==> !in_trim_set(TrimSet::WhiteSpace, text@[0]),
        text@.len() > 0 ==> !in_trim_set(TrimSet::WhiteSpace, text@.last()),
{
    let events = parse_plain_events(markdown, PLAIN_OPTIONS);
    plain_text_from_events(&events)
}

} // verus!
