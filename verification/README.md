# mdview

The rendering core of the MDView Markdown viewer, written in Verus with its
behaviour stated as contracts and proved.

- `src/frontmatter.rs`: finding a leading YAML front-matter block, HTML
  escaping, and rendering the block as a dimmed `<pre>`.
- `src/render.rs`: Markdown to an HTML fragment and to plain text. The
  CommonMark parsing is done by `pulldown-cmark`, called through two small
  trusted wrappers whose results are named (`cmark_html`, `cmark_events`);
  everything the library decides around those calls is verified.
- `src/page.rs`: the full viewer page (stylesheet in the light or dark palette,
  table-of-contents and find-bar scaffolding, viewer script).
- `src/substitution.rs`, `src/fixed_text.rs`: proofs that every colour
  placeholder of the stylesheet is substituted and that the page holds no
  stray `%%`.
- `src/text.rs`: character-sequence helpers (replacement, trimming) shared by
  the above.

Laws about the library as a whole are public proof functions named `law_*`.
The tests under `tests/` run the library against `pulldown-cmark` and `std`.
