//! Markdown rendering for the MDView viewer: front-matter handling, HTML escaping,
//! the full-page HTML shell, and plain-text extraction, with their contracts.

pub mod text;
pub mod frontmatter;
pub mod render;
pub mod page;
pub mod substitution;
pub mod fixed_text;

pub use frontmatter::{escape_html, render_frontmatter, split_frontmatter};
pub use page::wrap_html;
pub use render::{markdown_to_html, markdown_to_plain_text, plain_text_from_events, PlainEvent};
