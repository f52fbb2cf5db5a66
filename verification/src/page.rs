//! The full HTML page around a rendered fragment: stylesheet with the light or
//! dark palette, the table-of-contents and find-bar scaffolding, and the viewer
//! script.

use vstd::prelude::*;
use vstd::string::*;
use crate::text::{
    chars_of, contains_seq, lemma_occurrence_chars, lemma_occurs_within, lemma_replace_absent,
    lemma_replace_after_prefix, lemma_replace_leading, lemma_replace_split, occurs_at, push_chars,
    replace_all, replace_chars,
};

verus! {

broadcast use vstd::string::group_string_axioms;

/// CSS for the rendered document. Color placeholders (`%%NAME%%`) are substituted
/// in `wrap_html` so the stylesheet can stay a plain string literal (no `format!`
/// brace escaping).
pub const STYLE_TEMPLATE: &'static str = r#"
body {
    font-family: -apple-system, BlinkMacSystemFont, "Segoe UI", Helvetica, Arial, sans-serif;
    font-size: 14px;
    line-height: 1.6;
    padding: 20px;
    max-width: 900px;
    margin: 0 auto;
    background-color: %%BG%%;
    color: %%TEXT%%;
}
a { color: %%LINK%%; text-decoration: none; }
a:hover { text-decoration: underline; }
code {
    background-color: %%CODE_BG%%;
    padding: 0.2em 0.4em;
    border-radius: 3px;
    font-family: "Cascadia Code", "Fira Code", Consolas, monospace;
    font-size: 85%;
}
pre {
    background-color: %%CODE_BG%%;
    padding: 16px;
    overflow: auto;
    border-radius: 6px;
}
pre code {
    background-color: transparent;
    padding: 0;
}
blockquote {
    border-left: 4px solid %%BORDER%%;
    margin: 0;
    padding-left: 16px;
    color: %%TEXT%%;
    opacity: 0.8;
}
table {
    border-collapse: collapse;
    width: 100%;
}
th, td {
    border: 1px solid %%BORDER%%;
    padding: 8px 12px;
    text-align: left;
}
th {
    background-color: %%CODE_BG%%;
}
img {
    max-width: 100%;
}
h1, h2 {
    border-bottom: 1px solid %%BORDER%%;
    padding-bottom: 0.3em;
}
hr {
    border: none;
    border-top: 1px solid %%BORDER%%;
}
input[type="checkbox"] {
    margin-right: 0.5em;
}
a { cursor: pointer; }

/* YAML front matter, shown dimmed like a comment. */
.mdview-frontmatter {
    background-color: transparent;
    color: %%MUTED%%;
    border-left: 3px solid %%BORDER%%;
    border-radius: 0;
    margin: 0 0 18px 0;
    padding: 8px 12px;
    font-size: 12px;
    line-height: 1.45;
    white-space: pre-wrap;
    word-break: break-word;
    overflow-x: auto;
}

/* ---- Table of contents ---- */
#mdview-toc {
    position: fixed;
    top: 0;
    left: 0;
    width: 280px;
    height: 100vh;
    box-sizing: border-box;
    overflow-y: auto;
    padding: 44px 8px 24px 12px;
    background-color: %%TOC_BG%%;
    border-right: 1px solid %%BORDER%%;
    font-size: 13px;
    line-height: 1.35;
    z-index: 1000;
    transition: transform 0.15s ease;
    display: none;
}
#mdview-toc.mdview-toc-hidden {
    transform: translateX(-100%);
}
#mdview-toc-header {
    font-weight: 600;
    text-transform: uppercase;
    letter-spacing: 0.06em;
    font-size: 11px;
    opacity: 0.6;
    padding: 0 6px 8px 6px;
}
#mdview-toc ul {
    list-style: none;
    margin: 0;
    padding: 0;
}
#mdview-toc li { margin: 0; padding: 0; }
#mdview-toc .mdview-toc-row {
    display: flex;
    align-items: baseline;
    border-radius: 4px;
}
#mdview-toc .mdview-toc-row:hover { background-color: %%TOC_HOVER%%; }
#mdview-toc .mdview-toc-caret {
    flex: 0 0 auto;
    width: 16px;
    text-align: center;
    cursor: pointer;
    user-select: none;
    opacity: 0.55;
    font-size: 10px;
}
#mdview-toc .mdview-toc-caret.mdview-toc-empty {
    visibility: hidden;
    cursor: default;
}
#mdview-toc a {
    flex: 1 1 auto;
    display: block;
    padding: 3px 6px 3px 2px;
    color: %%TEXT%%;
    text-decoration: none;
    white-space: nowrap;
    overflow: hidden;
    text-overflow: ellipsis;
}
#mdview-toc a:hover { text-decoration: none; }
#mdview-toc a.mdview-toc-active {
    color: %%LINK%%;
    font-weight: 600;
    background-color: %%TOC_ACTIVE%%;
    border-radius: 4px;
}
#mdview-toc li.mdview-toc-collapsed > ul { display: none; }

#mdview-toc-toggle {
    position: fixed;
    top: 8px;
    left: 8px;
    z-index: 1002;
    width: 32px;
    height: 32px;
    box-sizing: border-box;
    border: 1px solid %%BORDER%%;
    border-radius: 6px;
    background-color: %%TOC_BG%%;
    color: %%TEXT%%;
    cursor: pointer;
    font-size: 15px;
    line-height: 1;
    padding: 0;
    display: none;
    align-items: center;
    justify-content: center;
    transition: left 0.15s ease;
}
#mdview-toc-toggle:hover { background-color: %%TOC_HOVER%%; }
body.mdview-toc-open #mdview-toc-toggle { left: 248px; }

/* Reserve space for the panel when open so it never overlaps the content. */
body.mdview-toc-open { padding-left: 300px; }

/* ---- Find bar (/) ---- */
#mdview-find {
    position: fixed;
    top: 10px;
    right: 14px;
    z-index: 1003;
    display: none;
    align-items: center;
    gap: 8px;
    padding: 6px 8px;
    background-color: %%TOC_BG%%;
    border: 1px solid %%BORDER%%;
    border-radius: 6px;
    box-shadow: 0 2px 10px rgba(0, 0, 0, 0.18);
}
#mdview-find input {
    border: 1px solid %%BORDER%%;
    border-radius: 4px;
    padding: 3px 6px;
    font-size: 13px;
    background-color: %%BG%%;
    color: %%TEXT%%;
    outline: none;
    min-width: 180px;
}
#mdview-find-status {
    font-size: 12px;
    opacity: 0.7;
    min-width: 52px;
    white-space: nowrap;
}
"#;

/// Part 1 of 5 of the viewer script.
pub const VIEWER_SCRIPT_FIRST: &'static str = r#"
(function() {
    function slugify(text) {
        return (text || '')
            .toLowerCase()
            .trim()
            .replace(/[\s]+/g, '-')
            .replace(/[^a-z0-9\-_]/g, '-')
            .replace(/-+/g, '-')
            .replace(/^-|-$/g, '');
    }

    function assignHeadingIds() {
        var seen = Object.create(null);
        document.querySelectorAll('h1,h2,h3,h4,h5,h6').forEach(function(heading) {
            if (heading.id) { seen[heading.id] = true; return; }

            var baseId = slugify(heading.textContent);
            if (!baseId) baseId = 'section';

            var id = baseId;
            var counter = 1;
            while (seen[id] || document.getElementById(id)) {
                counter += 1;
                id = baseId + '-' + counter;
            }

            seen[id] = true;
            heading.id = id;
        });
    }

    function scrollToHash(hash) {
        if (!hash || hash.charAt(0) !== '#') return false;

        var id = decodeURIComponent(hash.slice(1));
        if (!id) return false;

        var target = document.getElementById(id);
        if (!target) return false;

        target.scrollIntoView();
        if (history && history.replaceState) {
            history.replaceState(null, '', hash);
        }
        return true;
    }

    // ---- Persisted state ----
    // localStorage (not sessionStorage): Total Commander recreates the Lister
    // window on focus/selection change (ListCloseWindow + ListLoad), which
    // starts a fresh WebView2 session. localStorage lives in the shared user-
    // data profile, so scroll / TOC / zoom state survives that recreation.
    function scrollKey() { return 'mdview:scroll:' + (location.pathname || ''); }
    function tocStateKey() { return 'mdview:toc:' + (location.pathname || ''); }
    var TOC_OPEN_KEY = 'mdview:tocOpen';
    var ZOOM_KEY = 'mdview:zoom';

    function saveScroll() {
        try {
            localStorage.setItem(scrollKey(), String(window.scrollY || window.pageYOffset || 0));
        } catch (e) {}
    }

    function restoreScroll() {
        try {
            var v = localStorage.getItem(scrollKey());
            if (v !== null) { window.scrollTo(0, parseInt(v, 10) || 0); }
        } catch (e) {}
    }

    // ---- Zoom: `+`/`-` step by 10%, `z` resets to 120% ----
    function getZoom() {
        var z = parseFloat(document.documentElement.style.zoom);
        return (isNaN(z) || z <= 0) ? 1 : z;
    }
    function applyZoom(z) {
        z = Math.max(0.5, Math.min(3, Math.round(z * 100) / 100));
        document.documentElement.style.zoom = String(z);
        try { localStorage.setItem(ZOOM_KEY, String(z)); } catch (e) {}
    }
    function restoreZoom() {
        try {
            var v = localStorage.getItem(ZOOM_KEY);
            if (v) document.documentElement.style.zoom = String(parseFloat(v) || 1);
        } catch (e) {}
    }

    // ---- Table of contents ----
    function buildToc() {
        var panel = document.getElementById('mdview-toc');
        var toggle = document.getElementById('mdview-toc-toggle');
        var listRoot = document.getElementById('mdview-toc-list');
        if (!panel || !listRoot) return null;

        var headings = Array.prototype.slice.call(
            document.querySelectorAll('h1,h2,h3,h4,h5,h6')
        ).filter(function(h) { return h.id; });

        if (!headings.length) {
            panel.style.display = 'none';
            if (toggle) toggle.style.display = 'none';
            return null;
        }

        var root = { level: 0, children: [] };
        var stack = [root];
        headings.forEach(function(h) {
            var level = parseInt(h.tagName.substring(1), 10);
            while (stack.length > 1 && stack[stack.length - 1].level >= level) {
                stack.pop();
            }
            var node = { level: level, heading: h, children: [] };
            stack[stack.length - 1].children.push(node);
            stack.push(node);
        });

        var linkMap = Object.create(null);

        function render(node, ul) {
            node.children.forEach(function(child) {
                var li = document.createElement('li');
                li.setAttribute('data-heading', child.heading.id);

                var row = document.createElement('div');
                row.className = 'mdview-toc-row';
                row.style.paddingLeft = ((child.level - 1) * 14) + 'px';
"#;

/// Part 2 of 5 of the viewer script.
pub const VIEWER_SCRIPT_SECOND: &'static str = r#"
                var caret = document.createElement('span');
                caret.className = 'mdview-toc-caret';
                if (child.children.length) {
                    caret.textContent = '▾';
                    caret.addEventListener('click', function(e) {
                        e.preventDefault();
                        e.stopPropagation();
                        var collapsed = li.classList.toggle('mdview-toc-collapsed');
                        caret.textContent = collapsed ? '▸' : '▾';
                        saveTocState();
                    });
                } else {
                    caret.className += ' mdview-toc-empty';
                }
                row.appendChild(caret);

                var a = document.createElement('a');
                a.href = '#' + child.heading.id;
                a.textContent = child.heading.textContent || '(untitled)';
                a.title = a.textContent;
                row.appendChild(a);
                linkMap[child.heading.id] = a;

                li.appendChild(row);

                if (child.children.length) {
                    var childUl = document.createElement('ul');
                    render(child, childUl);
                    li.appendChild(childUl);
                }
                ul.appendChild(li);
            });
        }

        listRoot.innerHTML = '';
        render(root, listRoot);
        // Explicit value: '' would fall back to the stylesheet's `display: none`.
        panel.style.display = 'block';
        if (toggle) toggle.style.display = 'flex';
        return linkMap;
    }

    function saveTocState() {
        try {
            var panel = document.getElementById('mdview-toc');
            var collapsed = [];
            document.querySelectorAll('#mdview-toc li.mdview-toc-collapsed').forEach(function(li) {
                var h = li.getAttribute('data-heading');
                if (h) collapsed.push(h);
            });
            localStorage.setItem(tocStateKey(), JSON.stringify({ collapsed: collapsed }));
            var open = !!panel
                && !panel.classList.contains('mdview-toc-hidden')
                && panel.style.display !== 'none';
            localStorage.setItem(TOC_OPEN_KEY, open ? '1' : '0'); // global preference
        } catch (e) {}
    }

    function applyTocOpen(open) {
        var panel = document.getElementById('mdview-toc');
        var toggle = document.getElementById('mdview-toc-toggle');
        if (!panel) return;
        if (open) {
            panel.classList.remove('mdview-toc-hidden');
            document.body.classList.add('mdview-toc-open');
            if (toggle) toggle.textContent = '‹';
        } else {
            panel.classList.add('mdview-toc-hidden');
            document.body.classList.remove('mdview-toc-open');
            if (toggle) toggle.textContent = '☰';
        }
    }

    function restoreTocState() {
        var collapsed = [];
        try {
            var s = JSON.parse(localStorage.getItem(tocStateKey()) || 'null');
            if (s && s.collapsed) collapsed = s.collapsed;
        } catch (e) {}

        collapsed.forEach(function(hid) {
            var li = document.querySelector('#mdview-toc li[data-heading="' + hid + '"]');
            if (!li) return;
            var caret = li.querySelector(':scope > .mdview-toc-row > .mdview-toc-caret');
            if (!caret || caret.classList.contains('mdview-toc-empty')) return;
            li.classList.add('mdview-toc-collapsed');
            caret.textContent = '▸';
        });

        // Open/closed is a global preference so a `t`-minimize sticks across
        // files and across TC's focus-driven reloads. Default open.
        var open = true;
        try {
            var o = localStorage.getItem(TOC_OPEN_KEY);
            if (o !== null) open = (o === '1');
        } catch (e) {}
        applyTocOpen(open);
    }

    function toggleToc() {
        var panel = document.getElementById('mdview-toc');
        if (!panel || panel.style.display === 'none') return;
        var willOpen = panel.classList.contains('mdview-toc-hidden');
        applyTocOpen(willOpen);
        tocActive = willOpen; // opening hands j/k to the TOC; closing hands it back to the body
        saveTocState();
    }
"#;

/// Part 3 of 5 of the viewer script.
pub const VIEWER_SCRIPT_THIRD: &'static str = r#"
    function setupScrollSpy(linkMap) {
        var headings = Array.prototype.slice.call(
            document.querySelectorAll('h1,h2,h3,h4,h5,h6')
        ).filter(function(h) { return h.id && linkMap[h.id]; });
        if (!headings.length) return;

        var current = null;
        var ticking = false;

        function update() {
            ticking = false;
            var offset = 100;
            var active = headings[0];
            for (var i = 0; i < headings.length; i++) {
                if (headings[i].getBoundingClientRect().top <= offset) active = headings[i];
                else break;
            }
            if (active === current) return;
            current = active;

            for (var id in linkMap) {
                linkMap[id].classList.remove('mdview-toc-active');
            }
            var link = linkMap[active.id];
            if (!link) return;
            link.classList.add('mdview-toc-active');

            var panel = document.getElementById('mdview-toc');
            if (panel && panel.style.display !== 'none'
                && !panel.classList.contains('mdview-toc-hidden')) {
                var linkTop = link.offsetTop;
                if (linkTop < panel.scrollTop
                    || linkTop > panel.scrollTop + panel.clientHeight - 30) {
                    panel.scrollTop = Math.max(0, linkTop - panel.clientHeight / 2);
                }
            }
        }

        window.addEventListener('scroll', function() {
            if (!ticking) { ticking = true; window.requestAnimationFrame(update); }
        }, { passive: true });
        update();
    }

    function initToc() {
        var linkMap = buildToc();
        if (!linkMap) return;
        restoreTocState();
        setupScrollSpy(linkMap);
        var toggle = document.getElementById('mdview-toc-toggle');
        if (toggle) {
            toggle.addEventListener('click', function(e) {
                e.preventDefault();
                toggleToc();
            });
        }
        // Track which region j/k drive, based on where the user last clicked.
        document.addEventListener('click', function(e) {
            var toc = document.getElementById('mdview-toc');
            var find = document.getElementById('mdview-find');
            if (toc && toc.contains(e.target)) tocActive = true;
            else if (!(find && find.contains(e.target))) tocActive = false;
        }, true);
    }

    // ---- Boot ----
    restoreZoom();
    assignHeadingIds();
    initToc();

    if (!(location.hash && scrollToHash(location.hash))) {
        restoreScroll();
    }

    window.addEventListener('beforeunload', saveScroll);
    setInterval(saveScroll, 1000);

    document.addEventListener('click', function(e) {
        var link = e.target.closest('a');
        var webview = window.chrome && window.chrome.webview;
        if (!link) return;

        var href = link.getAttribute('href');
        if (!href) return;

        if (href.charAt(0) === '#') {
            e.preventDefault();
            scrollToHash(href);
            return;
        }

        if (webview && e.ctrlKey) {
            e.preventDefault();
            webview.postMessage({type: 'openLink', url: link.href || href});
        }
    });

    // ---- Vim-style navigation ----
    var LINE_STEP = 64;
    var pendingG = false, gTimer = null;

    function docBottom() {
        return Math.max(
            document.body.scrollHeight,
            document.documentElement.scrollHeight
        );
    }

    function handleG(e) {
        e.preventDefault();
        if (pendingG) {
            pendingG = false;
            if (gTimer) { clearTimeout(gTimer); gTimer = null; }
            window.scrollTo(0, 0); // gg -> top
        } else {
            pendingG = true;
            gTimer = setTimeout(function() { pendingG = false; gTimer = null; }, 600);
        }
    }

    function tocVisible() {
        var el = document.getElementById('mdview-toc');
        return !!el && el.style.display !== 'none'
            && !el.classList.contains('mdview-toc-hidden');
    }

    // Which region j/k drive: the TOC (true) or the document body (false).
    // Defaults to the TOC when it is open on entry; clicking the body switches
    // to the body, clicking the TOC switches back. This runs after the boot
    // section above, so initToc() has already built and restored the TOC and
    // tocVisible() is accurate here.
    var tocActive = tocVisible();
"#;

/// Part 4 of 5 of the viewer script.
pub const VIEWER_SCRIPT_FOURTH: &'static str = r#"
    function visibleTocLinks() {
        return Array.prototype.slice.call(
            document.querySelectorAll('#mdview-toc a')
        ).filter(function(a) { return a.offsetParent !== null; });
    }

    function currentActiveIndex(links) {
        var active = document.querySelector('#mdview-toc a.mdview-toc-active');
        return active ? links.indexOf(active) : -1;
    }

    // Step the TOC selection to the next/prev visible entry and jump the
    // document to it. Driven by j/k while the TOC is the active region.
    function moveTocSelection(dir) {
        var links = visibleTocLinks();
        if (!links.length) return;
        var next = currentActiveIndex(links) + dir;
        if (next < 0) next = 0;
        if (next > links.length - 1) next = links.length - 1;
        var href = links[next].getAttribute('href');
        if (href && href.charAt(0) === '#') scrollToHash(href);
    }

    // Jump the document to the previous/next heading (bound to [ and ]).
    function jumpHeading(dir) {
        var hs = Array.prototype.slice.call(
            document.querySelectorAll('h1,h2,h3,h4,h5,h6')
        ).filter(function(h) { return h.id; });
        if (!hs.length) return;
        var target = null, i;
        if (dir > 0) {
            for (i = 0; i < hs.length; i++) {
                if (hs[i].getBoundingClientRect().top > 2) { target = hs[i]; break; }
            }
            if (!target) target = hs[hs.length - 1];
        } else {
            for (i = hs.length - 1; i >= 0; i--) {
                if (hs[i].getBoundingClientRect().top < -2) { target = hs[i]; break; }
            }
            if (!target) target = hs[0];
        }
        scrollToHash('#' + target.id);
    }

    // ---- Find bar (triggered by `/`) ----
    function openFind() {
        var bar = document.getElementById('mdview-find');
        if (!bar) return;
        bar.style.display = 'flex';
        var input = document.getElementById('mdview-find-input');
        if (input) { input.focus(); input.select(); }
    }

    function closeFind() {
        var bar = document.getElementById('mdview-find');
        if (bar) bar.style.display = 'none';
        var input = document.getElementById('mdview-find-input');
        if (input) input.blur();
        var status = document.getElementById('mdview-find-status');
        if (status) status.textContent = '';
    }

    function runFind(query, backwards) {
        var status = document.getElementById('mdview-find-status');
        if (!query) { if (status) status.textContent = ''; return; }
        var found = false;
        try {
            // window.find(text, caseSensitive, backwards, wrapAround, wholeWord, inFrames, showDialog)
            found = window.find(query, false, !!backwards, true, false, false, false);
        } catch (err) {}
        if (status) status.textContent = found ? '' : 'No match';
    }

    document.addEventListener('keydown', function(e) {
        var webview = window.chrome && window.chrome.webview;

        if (e.key === 'Escape') {
            if (webview) webview.postMessage({type: 'close'});
            return;
        }

        // Never hijack keys while typing in a field.
        var t = e.target;
        var editable = t && (t.isContentEditable
            || /^(input|textarea|select)$/i.test(t.tagName || ''));
        if (editable) return;

        // Ctrl+d / Ctrl+u: half-page down / up (vim / Sumatra).
        if (e.ctrlKey && !e.altKey && !e.metaKey && (e.key === 'd' || e.key === 'u')) {
            e.preventDefault();
            var half = (window.innerHeight || 600) * 0.5;
            window.scrollBy(0, e.key === 'd' ? half : -half);
            return;
        }

        // Ctrl+f / Ctrl+b: full-page down / up (vim). preventDefault also
        // suppresses the browser's built-in find on Ctrl+f.
        if (e.ctrlKey && !e.altKey && !e.metaKey && (e.key === 'f' || e.key === 'b')) {
            e.preventDefault();
            var page = (window.innerHeight || 600) * 0.9;
            window.scrollBy(0, e.key === 'f' ? page : -page);
            return;
        }

        // Everything below is a plain key (Shift is allowed, for `G`).
        if (e.ctrlKey || e.metaKey || e.altKey) return;
"#;

/// Part 5 of 5 of the viewer script.
pub const VIEWER_SCRIPT_FIFTH: &'static str = r#"
        switch (e.key) {
            case 'j':
                e.preventDefault();
                if (tocActive && tocVisible()) moveTocSelection(1); // navigate TOC entries
                else window.scrollBy(0, LINE_STEP);                 // otherwise scroll the doc
                return;
            case 'k':
                e.preventDefault();
                if (tocActive && tocVisible()) moveTocSelection(-1);
                else window.scrollBy(0, -LINE_STEP);
                return;
            case '[': e.preventDefault(); jumpHeading(-1); return; // previous heading
            case ']': e.preventDefault(); jumpHeading(1); return;  // next heading
            case '/': e.preventDefault(); openFind(); return;      // open find bar
            case '+': case '=': e.preventDefault(); applyZoom(getZoom() + 0.1); return; // zoom in
            case '-': case '_': e.preventDefault(); applyZoom(getZoom() - 0.1); return; // zoom out
            case 'z': case 'Z': e.preventDefault(); applyZoom(1.2); return;             // zoom to 120%
            case 'G': e.preventDefault(); window.scrollTo(0, docBottom()); return; // Shift+G -> bottom
            case 'g': handleG(e); return;                                          // gg -> top
            case 't': case 'T': e.preventDefault(); toggleToc(); return;
            case 'r': case 'R':
                if (webview) {
                    e.preventDefault();
                    saveScroll();
                    webview.postMessage({type: 'refresh'});
                }
                return;
            case 'e': case 'E': case 'i': case 'I':
                if (webview) {
                    e.preventDefault();
                    webview.postMessage({type: 'edit'});
                }
                return;
        }
    });

    // Find-bar input: Enter = next, Shift+Enter = previous, Esc = close.
    // stopPropagation keeps these from reaching the document handler (whose
    // Escape would otherwise close the Lister).
    var findInput = document.getElementById('mdview-find-input');
    if (findInput) {
        findInput.addEventListener('keydown', function(e) {
            if (e.key === 'Enter') {
                e.preventDefault();
                e.stopPropagation();
                runFind(findInput.value, e.shiftKey);
            } else if (e.key === 'Escape') {
                e.preventDefault();
                e.stopPropagation();
                closeFind();
            } else {
                e.stopPropagation();
            }
        });
    }
})();
"#;

/// Markup for the TOC panel and its toggle button. Populated by the viewer script;
/// hidden entirely when the document has no headings.
pub const TOC_MARKUP: &'static str = r#"<button id="mdview-toc-toggle" type="button" title="Toggle contents (t)" aria-label="Toggle table of contents">&#9776;</button>
<nav id="mdview-toc" aria-label="Table of contents">
<div id="mdview-toc-header">Contents</div>
<ul id="mdview-toc-list"></ul>
</nav>
"#;

/// Markup for the find bar, revealed by pressing `/`.
pub const FIND_MARKUP: &'static str = r#"<div id="mdview-find" role="search">
<input id="mdview-find-input" type="text" placeholder="Find…" aria-label="Find in page" autocomplete="off" spellcheck="false">
<span id="mdview-find-status" aria-live="polite"></span>
</div>
"#;

/// Everything before the stylesheet.
pub const PAGE_HEAD: &'static str = "<!DOCTYPE html>\n<html>\n<head>\n<meta charset=\"UTF-8\">\n<style>";

/// Between the stylesheet and the body scaffolding.
pub const STYLE_END: &'static str = "</style>\n</head>\n<body>\n";

/// Between the content and the viewer script.
pub const SCRIPT_OPEN: &'static str = "\n<script>";

/// Everything after the viewer script.
pub const PAGE_TAIL: &'static str = "</script>\n</body>\n</html>";

/// The colors of one appearance of the page.
pub struct Palette {
    pub bg: &'static str,
    pub text: &'static str,
    pub code_bg: &'static str,
    pub link: &'static str,
    pub border: &'static str,
    pub toc_bg: &'static str,
    pub toc_hover: &'static str,
    pub toc_active: &'static str,
    pub muted: &'static str,
}

/// The dark palette when `dark_mode`, else the light one.
pub open spec fn spec_palette(dark_mode: bool) -> Palette {
    if dark_mode {
        Palette {
            bg: "#1e1e1e",
            text: "#d4d4d4",
            code_bg: "#2d2d2d",
            link: "#58a6ff",
            border: "#444",
            toc_bg: "#252526",
            toc_hover: "#2d2d30",
            toc_active: "#37373d",
            muted: "#8b949e",
        }
    } else {
        Palette {
            bg: "#ffffff",
            text: "#24292e",
            code_bg: "#f6f8fa",
            link: "#0366d6",
            border: "#e1e4e8",
            toc_bg: "#f6f8fa",
            toc_hover: "#eaeef2",
            toc_active: "#dbe9ff",
            muted: "#6a737d",
        }
    }
}

/// The palette for `dark_mode`.
pub fn palette(dark_mode: bool) -> (p: Palette)
    ensures
        p == spec_palette(dark_mode),
{
    if dark_mode {
        Palette {
            bg: "#1e1e1e",
            text: "#d4d4d4",
            code_bg: "#2d2d2d",
            link: "#58a6ff",
            border: "#444",
            toc_bg: "#252526",
            toc_hover: "#2d2d30",
            toc_active: "#37373d",
            muted: "#8b949e",
        }
    } else {
        Palette {
            bg: "#ffffff",
            text: "#24292e",
            code_bg: "#f6f8fa",
            link: "#0366d6",
            border: "#e1e4e8",
            toc_bg: "#f6f8fa",
            toc_hover: "#eaeef2",
            toc_active: "#dbe9ff",
            muted: "#6a737d",
        }
    }
}

/// Client-side script: heading ids, hash navigation, the collapsible TOC,
/// scroll-spy, scroll preservation across refresh, and keyboard shortcuts.
/// Plain string literals (no interpolation) so braces need no escaping; the
/// script is their concatenation, in order (`viewer_script`).
pub open spec fn viewer_script() -> Seq<char> {
    VIEWER_SCRIPT_FIRST@ + VIEWER_SCRIPT_SECOND@ + VIEWER_SCRIPT_THIRD@ + VIEWER_SCRIPT_FOURTH@
        + VIEWER_SCRIPT_FIFTH@
}

/// `content` with root-relative `src`/`href` attribute values made relative:
/// the slash after `src="`, `href="`, `src='` and `href='` is dropped.
pub open spec fn rewrite_root_urls(content: Seq<char>) -> Seq<char> {
    let a = replace_all(content, "src=\"/"@, "src=\""@);
    let b = replace_all(a, "href=\"/"@, "href=\""@);
    let c = replace_all(b, "src='/"@, "src='"@);
    replace_all(c, "href='/"@, "href='"@)
}

/// The stylesheet with every color placeholder replaced by the color of `p`.
pub open spec fn spec_styles(p: Palette) -> Seq<char> {
    let s = replace_all(STYLE_TEMPLATE@, "%%BG%%"@, p.bg@);
    let s = replace_all(s, "%%TEXT%%"@, p.text@);
    let s = replace_all(s, "%%CODE_BG%%"@, p.code_bg@);
    let s = replace_all(s, "%%LINK%%"@, p.link@);
    let s = replace_all(s, "%%BORDER%%"@, p.border@);
    let s = replace_all(s, "%%TOC_BG%%"@, p.toc_bg@);
    let s = replace_all(s, "%%TOC_HOVER%%"@, p.toc_hover@);
    let s = replace_all(s, "%%TOC_ACTIVE%%"@, p.toc_active@);
    replace_all(s, "%%MUTED%%"@, p.muted@)
}

/// The full page for `content`: head and stylesheet in the palette of
/// `dark_mode`, the TOC and find-bar scaffolding, the content with root-relative
/// URLs made relative, and the viewer script.
pub open spec fn spec_wrap_html(content: Seq<char>, dark_mode: bool) -> Seq<char> {
    PAGE_HEAD@ + spec_styles(spec_palette(dark_mode)) + STYLE_END@ + TOC_MARKUP@ + FIND_MARKUP@
        + rewrite_root_urls(content) + SCRIPT_OPEN@ + viewer_script() + PAGE_TAIL@
}

/// The page from the end of the stylesheet on: the closing `</style>` tag and
/// head, the scaffolding, the content with root-relative URLs made relative,
/// and the viewer script. It does not depend on the palette.
pub open spec fn page_after_styles(content: Seq<char>) -> Seq<char> {
    STYLE_END@ + TOC_MARKUP@ + FIND_MARKUP@ + rewrite_root_urls(content) + SCRIPT_OPEN@
        + viewer_script() + PAGE_TAIL@
}

/// `s` with every occurrence of the non-empty `pat` replaced by `rep`.
fn replace_text(s: &Vec<char>, pat: &str, rep: &str) -> (r: Vec<char>)
    requires
        pat@.len() > 0,
    ensures
        r@ == replace_all(s@, pat@, rep@),
{
    let pat_chars = chars_of(pat);
    let rep_chars = chars_of(rep);
    replace_chars(s, &pat_chars, &rep_chars)
}

/// The stylesheet in palette `p`.
fn styles(p: &Palette) -> (r: Vec<char>)
    ensures
        r@ == spec_styles(*p),
{
    proof {
        reveal_strlit("%%BG%%");
        reveal_strlit("%%TEXT%%");
        reveal_strlit("%%CODE_BG%%");
        reveal_strlit("%%LINK%%");
        reveal_strlit("%%BORDER%%");
        reveal_strlit("%%TOC_BG%%");
        reveal_strlit("%%TOC_HOVER%%");
        reveal_strlit("%%TOC_ACTIVE%%");
        reveal_strlit("%%MUTED%%");
    }
    let s = chars_of(STYLE_TEMPLATE);
    let s = replace_text(&s, "%%BG%%", p.bg);
    let s = replace_text(&s, "%%TEXT%%", p.text);
    let s = replace_text(&s, "%%CODE_BG%%", p.code_bg);
    let s = replace_text(&s, "%%LINK%%", p.link);
    let s = replace_text(&s, "%%BORDER%%", p.border);
    let s = replace_text(&s, "%%TOC_BG%%", p.toc_bg);
    let s = replace_text(&s, "%%TOC_HOVER%%", p.toc_hover);
    let s = replace_text(&s, "%%TOC_ACTIVE%%", p.toc_active);
    replace_text(&s, "%%MUTED%%", p.muted)
}

/// `content` with root-relative URLs made relative (`rewrite_root_urls`).
fn relative_urls(content: &str) -> (r: Vec<char>)
    ensures
        r@ == rewrite_root_urls(content@),
{
    proof {
        reveal_strlit("src=\"/");
        reveal_strlit("href=\"/");
        reveal_strlit("src='/");
        reveal_strlit("href='/");
    }
    let c = chars_of(content);
    let c = replace_text(&c, "src=\"/", "src=\"");
    let c = replace_text(&c, "href=\"/", "href=\"");
    let c = replace_text(&c, "src='/", "src='");
    replace_text(&c, "href='/", "href='")
}

/// Wraps an HTML fragment in the full viewer page: stylesheet in the light or
/// dark palette, table-of-contents and find-bar scaffolding, and the viewer
/// script. Root-relative `src`/`href` values in `content` are made relative.
pub fn wrap_html(content: &str, dark_mode: bool) -> (out: String)
    ensures
        out@ == spec_wrap_html(content@, dark_mode),
{
    let p = palette(dark_mode);
    let rewritten = relative_urls(content);
    let styles = styles(&p);
    let mut out = String::new();
    out.append(PAGE_HEAD);
    push_chars(&mut out, &styles);
    out.append(STYLE_END);
    out.append(TOC_MARKUP);
    out.append(FIND_MARKUP);
    push_chars(&mut out, &rewritten);
    out.append(SCRIPT_OPEN);
    out.append(VIEWER_SCRIPT_FIRST);
    out.append(VIEWER_SCRIPT_SECOND);
    out.append(VIEWER_SCRIPT_THIRD);
    out.append(VIEWER_SCRIPT_FOURTH);
    out.append(VIEWER_SCRIPT_FIFTH);
    out.append(PAGE_TAIL);
    proof {
        assert(out@ =~= spec_wrap_html(content@, dark_mode));
    }
    out
}

/// Content with no root-relative `src`/`href` value passes through the page
/// unchanged: relative links such as `../README.md#top` or `#top` are preserved.
pub proof fn law_relative_urls_preserved(content: Seq<char>)
    requires
        !contains_seq(content, "src=\"/"@),
        !contains_seq(content, "href=\"/"@),
        !contains_seq(content, "src='/"@),
        !contains_seq(content, "href='/"@),
    ensures
        rewrite_root_urls(content) == content,
{
    lemma_replace_absent(content, "src=\"/"@, "src=\""@);
    lemma_replace_absent(content, "href=\"/"@, "href=\""@);
    lemma_replace_absent(content, "src='/"@, "src='"@);
    lemma_replace_absent(content, "href='/"@, "href='"@);
}

/// No occurrence of `pat` starts inside `x` in `x + z`, when `x` differs from
/// `pat` at position `k` and no later character of `x` is `pat`'s first.
proof fn lemma_no_start_within(x: Seq<char>, z: Seq<char>, pat: Seq<char>, k: int)
    requires
        0 <= k < pat.len(),
        k < x.len(),
        x[k] != pat[k],
        forall|i: int| 1 <= i < x.len() ==> x[i] != pat[0],
    ensures
        forall|i: int| 0 <= i < x.len() ==> !occurs_at(x + z, i, pat),
{
    assert forall|i: int| 0 <= i < x.len() implies !occurs_at(x + z, i, pat) by {
        if occurs_at(x + z, i, pat) {
            lemma_occurrence_chars(x + z, i, pat);
            if i == 0 {
                assert((x + z)[0 + k] == pat[k]);
                assert((x + z)[k] == x[k]);
            } else {
                assert((x + z)[i + 0] == pat[0]);
                assert((x + z)[i] == x[i]);
            }
        }
    }
}

/// One pass of the URL rewrite, on a piece that ends with `>`: no occurrence
/// straddles the end of the piece, and the rewritten piece still ends with `>`.
proof fn lemma_pass_at_tag(x: Seq<char>, y: Seq<char>, pat: Seq<char>, rep: Seq<char>)
    requires
        pat.len() > 0,
        !pat.contains('>'),
        x.len() > 0,
        x.last() == '>',
    ensures
        replace_all(x + y, pat, rep) == replace_all(x, pat, rep) + replace_all(y, pat, rep),
        replace_all(x, pat, rep).len() > 0,
        replace_all(x, pat, rep).last() == '>',
{
    let n = pat.len() as int;
    assert forall|i: int| 0 <= i < x.len() < i + n implies !occurs_at(x + y, i, pat) by {
        if occurs_at(x + y, i, pat) {
            lemma_occurrence_chars(x + y, i, pat);
            let k = x.len() - 1 - i;
            assert((x + y)[i + k] == pat[k]);
            assert((x + y)[i + k] == x.last());
            assert(pat.contains('>'));
        }
    }
    lemma_replace_split(x, y, pat, rep);
    let x1 = x.drop_last();
    let tag = seq!['>'];
    assert(x1 + tag =~= x);
    assert forall|i: int| 0 <= i < x1.len() < i + n implies !occurs_at(x1 + tag, i, pat) by {
        if occurs_at(x1 + tag, i, pat) {
            lemma_occurrence_chars(x1 + tag, i, pat);
            let k = x1.len() - i;
            assert((x1 + tag)[i + k] == pat[k]);
            assert(pat.contains('>'));
        }
    }
    lemma_replace_split(x1, tag, pat, rep);
    if occurs_at(tag, 0, pat) {
        assert(tag.subrange(0, n)[0] == pat[0]);
        assert(pat.contains('>'));
    }
    assert(tag.skip(1) =~= Seq::<char>::empty());
    assert(replace_all(Seq::<char>::empty(), pat, rep) == Seq::<char>::empty());
    assert(replace_all(tag, pat, rep) == seq![tag[0]] + replace_all(tag.skip(1), pat, rep));
    assert(replace_all(tag, pat, rep) =~= tag);
}

/// Each root-relative attribute start is made relative, and the rest of the
/// text is rewritten in the same way: `src="/` followed by `y` becomes `src="`
/// followed by the rewrite of `y`, and likewise for `href="/`, `src='/` and
/// `href='/`. So every root-relative value is rewritten, not just the first.
pub proof fn law_rewrite_each_attribute(y: Seq<char>)
    ensures
        rewrite_root_urls("src=\"/"@ + y) == "src=\""@ + rewrite_root_urls(y),
        rewrite_root_urls("href=\"/"@ + y) == "href=\""@ + rewrite_root_urls(y),
        rewrite_root_urls("src='/"@ + y) == "src='"@ + rewrite_root_urls(y),
        rewrite_root_urls("href='/"@ + y) == "href='"@ + rewrite_root_urls(y),
{
    reveal_strlit("src=\"/");
    reveal_strlit("src=\"");
    reveal_strlit("href=\"/");
    reveal_strlit("href=\"");
    reveal_strlit("src='/");
    reveal_strlit("src='");
    reveal_strlit("href='/");
    reveal_strlit("href='");
    assert(rewrite_root_urls("src=\"/"@ + y) == "src=\""@ + rewrite_root_urls(y)) by {
        lemma_replace_leading(y, "src=\"/"@, "src=\""@);
        let y1 = replace_all(y, "src=\"/"@, "src=\""@);
        lemma_no_start_within("src=\""@, y1, "href=\"/"@, 0);
        lemma_replace_after_prefix("src=\""@, y1, "href=\"/"@, "href=\""@);
        let y2 = replace_all(y1, "href=\"/"@, "href=\""@);
        lemma_no_start_within("src=\""@, y2, "src='/"@, 4);
        lemma_replace_after_prefix("src=\""@, y2, "src='/"@, "src='"@);
        let y3 = replace_all(y2, "src='/"@, "src='"@);
        lemma_no_start_within("src=\""@, y3, "href='/"@, 0);
        lemma_replace_after_prefix("src=\""@, y3, "href='/"@, "href='"@);
    }
    assert(rewrite_root_urls("href=\"/"@ + y) == "href=\""@ + rewrite_root_urls(y)) by {
        lemma_no_start_within("href=\"/"@, y, "src=\"/"@, 0);
        lemma_replace_after_prefix("href=\"/"@, y, "src=\"/"@, "src=\""@);
        let y1 = replace_all(y, "src=\"/"@, "src=\""@);
        lemma_replace_leading(y1, "href=\"/"@, "href=\""@);
        let y2 = replace_all(y1, "href=\"/"@, "href=\""@);
        lemma_no_start_within("href=\""@, y2, "src='/"@, 0);
        lemma_replace_after_prefix("href=\""@, y2, "src='/"@, "src='"@);
        let y3 = replace_all(y2, "src='/"@, "src='"@);
        lemma_no_start_within("href=\""@, y3, "href='/"@, 5);
        lemma_replace_after_prefix("href=\""@, y3, "href='/"@, "href='"@);
    }
    assert(rewrite_root_urls("src='/"@ + y) == "src='"@ + rewrite_root_urls(y)) by {
        lemma_no_start_within("src='/"@, y, "src=\"/"@, 4);
        lemma_replace_after_prefix("src='/"@, y, "src=\"/"@, "src=\""@);
        let y1 = replace_all(y, "src=\"/"@, "src=\""@);
        lemma_no_start_within("src='/"@, y1, "href=\"/"@, 0);
        lemma_replace_after_prefix("src='/"@, y1, "href=\"/"@, "href=\""@);
        let y2 = replace_all(y1, "href=\"/"@, "href=\""@);
        lemma_replace_leading(y2, "src='/"@, "src='"@);
        let y3 = replace_all(y2, "src='/"@, "src='"@);
        lemma_no_start_within("src='"@, y3, "href='/"@, 0);
        lemma_replace_after_prefix("src='"@, y3, "href='/"@, "href='"@);
    }
    assert(rewrite_root_urls("href='/"@ + y) == "href='"@ + rewrite_root_urls(y)) by {
        lemma_no_start_within("href='/"@, y, "src=\"/"@, 0);
        lemma_replace_after_prefix("href='/"@, y, "src=\"/"@, "src=\""@);
        let y1 = replace_all(y, "src=\"/"@, "src=\""@);
        lemma_no_start_within("href='/"@, y1, "href=\"/"@, 5);
        lemma_replace_after_prefix("href='/"@, y1, "href=\"/"@, "href=\""@);
        let y2 = replace_all(y1, "href=\"/"@, "href=\""@);
        lemma_no_start_within("href='/"@, y2, "src='/"@, 0);
        lemma_replace_after_prefix("href='/"@, y2, "src='/"@, "src='"@);
        let y3 = replace_all(y2, "src='/"@, "src='"@);
        lemma_replace_leading(y3, "href='/"@, "href='"@);
    }
}

/// The rewrite works piece by piece: for a piece that ends a tag with `>`,
/// rewriting the piece and what follows it is rewriting each of them.
pub proof fn law_rewrite_distributes_at_tag(x: Seq<char>, y: Seq<char>)
    requires
        x.len() > 0,
        x.last() == '>',
    ensures
        rewrite_root_urls(x + y) == rewrite_root_urls(x) + rewrite_root_urls(y),
{
    reveal_strlit("src=\"/");
    assert(!"src=\"/"@.contains('>'));
    reveal_strlit("href=\"/");
    assert(!"href=\"/"@.contains('>'));
    reveal_strlit("src='/");
    assert(!"src='/"@.contains('>'));
    reveal_strlit("href='/");
    assert(!"href='/"@.contains('>'));
    lemma_pass_at_tag(x, y, "src=\"/"@, "src=\""@);
    let x1 = replace_all(x, "src=\"/"@, "src=\""@);
    let y1 = replace_all(y, "src=\"/"@, "src=\""@);
    lemma_pass_at_tag(x1, y1, "href=\"/"@, "href=\""@);
    let x2 = replace_all(x1, "href=\"/"@, "href=\""@);
    let y2 = replace_all(y1, "href=\"/"@, "href=\""@);
    lemma_pass_at_tag(x2, y2, "src='/"@, "src='"@);
    let x3 = replace_all(x2, "src='/"@, "src='"@);
    let y3 = replace_all(y2, "src='/"@, "src='"@);
    lemma_pass_at_tag(x3, y3, "href='/"@, "href='"@);
}

/// Every page carries the table-of-contents scaffolding that the viewer script
/// fills in (the panel, its list and its toggle button), whatever the content
/// and palette.
pub proof fn law_page_has_toc_scaffolding(content: Seq<char>, dark_mode: bool)
    ensures
        contains_seq(spec_wrap_html(content, dark_mode), "id=\"mdview-toc\""@),
        contains_seq(spec_wrap_html(content, dark_mode), "id=\"mdview-toc-list\""@),
        contains_seq(spec_wrap_html(content, dark_mode), "id=\"mdview-toc-toggle\""@),
{
    reveal_strlit(r#"<button id="mdview-toc-toggle" type="button" title="Toggle contents (t)" aria-label="Toggle table of contents">&#9776;</button>
<nav id="mdview-toc" aria-label="Table of contents">
<div id="mdview-toc-header">Contents</div>
<ul id="mdview-toc-list"></ul>
</nav>
"#);
    reveal_strlit("id=\"mdview-toc\"");
    reveal_strlit("id=\"mdview-toc-list\"");
    reveal_strlit("id=\"mdview-toc-toggle\"");
    let before = PAGE_HEAD@ + spec_styles(spec_palette(dark_mode)) + STYLE_END@;
    let after = FIND_MARKUP@ + rewrite_root_urls(content) + SCRIPT_OPEN@ + viewer_script()
        + PAGE_TAIL@;
    assert(spec_wrap_html(content, dark_mode) =~= before + TOC_MARKUP@ + after);
    assert(TOC_MARKUP@.subrange(133, 148) =~= "id=\"mdview-toc\""@);
    assert(TOC_MARKUP@.subrange(228, 248) =~= "id=\"mdview-toc-list\""@);
    assert(TOC_MARKUP@.subrange(8, 30) =~= "id=\"mdview-toc-toggle\""@);
    lemma_occurs_within(before, TOC_MARKUP@, after, 133, "id=\"mdview-toc\""@);
    lemma_occurs_within(before, TOC_MARKUP@, after, 228, "id=\"mdview-toc-list\""@);
    lemma_occurs_within(before, TOC_MARKUP@, after, 8, "id=\"mdview-toc-toggle\""@);
}

} // verus!
