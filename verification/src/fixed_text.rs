//! The fixed text of the viewer page (head, scaffolding markup, viewer
//! script): what the page laws need to know of it, proved from the literals.

use vstd::prelude::*;
use vstd::string::*;
use crate::page::{
    viewer_script, FIND_MARKUP, PAGE_HEAD, PAGE_TAIL, SCRIPT_OPEN, STYLE_END, TOC_MARKUP,
    VIEWER_SCRIPT_FIFTH, VIEWER_SCRIPT_FIRST, VIEWER_SCRIPT_FOURTH, VIEWER_SCRIPT_SECOND,
    VIEWER_SCRIPT_THIRD,
};
use crate::substitution::{is_sealed, lemma_sealed_concat};

verus! {

/// The head, the scaffolding markup and the frame around the script hold no `%%`
/// and neither start nor end with `%`.
proof fn lemma_markup_sealed()
    ensures
        is_sealed(PAGE_HEAD@),
        is_sealed(STYLE_END@),
        is_sealed(TOC_MARKUP@),
        is_sealed(FIND_MARKUP@),
        is_sealed(SCRIPT_OPEN@),
        is_sealed(PAGE_TAIL@),
{
    reveal_strlit("<!DOCTYPE html>\n<html>\n<head>\n<meta charset=\"UTF-8\">\n<style>");
    reveal_strlit("</style>\n</head>\n<body>\n");
    reveal_strlit(r#"<button id="mdview-toc-toggle" type="button" title="Toggle contents (t)" aria-label="Toggle table of contents">&#9776;</button>
<nav id="mdview-toc" aria-label="Table of contents">
<div id="mdview-toc-header">Contents</div>
<ul id="mdview-toc-list"></ul>
</nav>
"#);
    reveal_strlit(r#"<div id="mdview-find" role="search">
<input id="mdview-find-input" type="text" placeholder="Find…" aria-label="Find in page" autocomplete="off" spellcheck="false">
<span id="mdview-find-status" aria-live="polite"></span>
</div>
"#);
    reveal_strlit("\n<script>");
    reveal_strlit("</script>\n</body>\n</html>");
    assert(is_sealed(PAGE_HEAD@));
    assert(is_sealed(STYLE_END@));
    assert(is_sealed(TOC_MARKUP@));
    assert(is_sealed(FIND_MARKUP@));
    assert(is_sealed(SCRIPT_OPEN@));
    assert(is_sealed(PAGE_TAIL@));
}

/// The first part of the viewer script holds no `%%` and neither starts nor
/// ends with `%`.
proof fn lemma_script_first_sealed()
    ensures
        is_sealed(VIEWER_SCRIPT_FIRST@),
{
    reveal_strlit(r#"
(function() {
    function slugify(text) {
        return (text || '')
            .toLowerCase()
            .trim()
            .replace(/[\s]+/g, '-')
            .replace(/[^a-z0-9\-_]/g, '-')
            .replace(/-+/g, '-')
            .replace(/^-|-$/g, '');
    }

    function assignHeadingIds() {
        var seen = Object.create(null);
        document.querySelectorAll('h1,h2,h3,h4,h5,h6').forEach(function(heading) {
            if (heading.id) { seen[heading.id] = true; return; }

            var baseId = slugify(heading.textContent);
            if (!baseId) baseId = 'section';

            var id = baseId;
            var counter = 1;
            while (seen[id] || document.getElementById(id)) {
                counter += 1;
                id = baseId + '-' + counter;
            }

            seen[id] = true;
            heading.id = id;
        });
    }

    function scrollToHash(hash) {
        if (!hash || hash.charAt(0) !== '#') return false;

        var id = decodeURIComponent(hash.slice(1));
        if (!id) return false;

        var target = document.getElementById(id);
        if (!target) return false;

        target.scrollIntoView();
        if (history && history.replaceState) {
            history.replaceState(null, '', hash);
        }
        return true;
    }

    // ---- Persisted state ----
    // localStorage (not sessionStorage): Total Commander recreates the Lister
    // window on focus/selection change (ListCloseWindow + ListLoad), which
    // starts a fresh WebView2 session. localStorage lives in the shared user-
    // data profile, so scroll / TOC / zoom state survives that recreation.
    function scrollKey() { return 'mdview:scroll:' + (location.pathname || ''); }
    function tocStateKey() { return 'mdview:toc:' + (location.pathname || ''); }
    var TOC_OPEN_KEY = 'mdview:tocOpen';
    var ZOOM_KEY = 'mdview:zoom';

    function saveScroll() {
        try {
            localStorage.setItem(scrollKey(), String(window.scrollY || window.pageYOffset || 0));
        } catch (e) {}
    }

    function restoreScroll() {
        try {
            var v = localStorage.getItem(scrollKey());
            if (v !== null) { window.scrollTo(0, parseInt(v, 10) || 0); }
        } catch (e) {}
    }

    // ---- Zoom: `+`/`-` step by 10%, `z` resets to 120% ----
    function getZoom() {
        var z = parseFloat(document.documentElement.style.zoom);
        return (isNaN(z) || z <= 0) ? 1 : z;
    }
    function applyZoom(z) {
        z = Math.max(0.5, Math.min(3, Math.round(z * 100) / 100));
        document.documentElement.style.zoom = String(z);
        try { localStorage.setItem(ZOOM_KEY, String(z)); } catch (e) {}
    }
    function restoreZoom() {
        try {
            var v = localStorage.getItem(ZOOM_KEY);
            if (v) document.documentElement.style.zoom = String(parseFloat(v) || 1);
        } catch (e) {}
    }

    // ---- Table of contents ----
    function buildToc() {
        var panel = document.getElementById('mdview-toc');
        var toggle = document.getElementById('mdview-toc-toggle');
        var listRoot = document.getElementById('mdview-toc-list');
        if (!panel || !listRoot) return null;

        var headings = Array.prototype.slice.call(
            document.querySelectorAll('h1,h2,h3,h4,h5,h6')
        ).filter(function(h) { return h.id; });

        if (!headings.length) {
            panel.style.display = 'none';
            if (toggle) toggle.style.display = 'none';
            return null;
        }

        var root = { level: 0, children: [] };
        var stack = [root];
        headings.forEach(function(h) {
            var level = parseInt(h.tagName.substring(1), 10);
            while (stack.length > 1 && stack[stack.length - 1].level >= level) {
                stack.pop();
            }
            var node = { level: level, heading: h, children: [] };
            stack[stack.length - 1].children.push(node);
            stack.push(node);
        });

        var linkMap = Object.create(null);

        function render(node, ul) {
            node.children.forEach(function(child) {
                var li = document.createElement('li');
                li.setAttribute('data-heading', child.heading.id);

                var row = document.createElement('div');
                row.className = 'mdview-toc-row';
                row.style.paddingLeft = ((child.level - 1) * 14) + 'px';
"#);
    assert(is_sealed(VIEWER_SCRIPT_FIRST@));
}

/// The second part of the viewer script holds no `%%` and neither starts nor
/// ends with `%`.
proof fn lemma_script_second_sealed()
    ensures
        is_sealed(VIEWER_SCRIPT_SECOND@),
{
    reveal_strlit(r#"
                var caret = document.createElement('span');
                caret.className = 'mdview-toc-caret';
                if (child.children.length) {
                    caret.textContent = '▾';
                    caret.addEventListener('click', function(e) {
                        e.preventDefault();
                        e.stopPropagation();
                        var collapsed = li.classList.toggle('mdview-toc-collapsed');
                        caret.textContent = collapsed ? '▸' : '▾';
                        saveTocState();
                    });
                } else {
                    caret.className += ' mdview-toc-empty';
                }
                row.appendChild(caret);

                var a = document.createElement('a');
                a.href = '#' + child.heading.id;
                a.textContent = child.heading.textContent || '(untitled)';
                a.title = a.textContent;
                row.appendChild(a);
                linkMap[child.heading.id] = a;

                li.appendChild(row);

                if (child.children.length) {
                    var childUl = document.createElement('ul');
                    render(child, childUl);
                    li.appendChild(childUl);
                }
                ul.appendChild(li);
            });
        }

        listRoot.innerHTML = '';
        render(root, listRoot);
        // Explicit value: '' would fall back to the stylesheet's `display: none`.
        panel.style.display = 'block';
        if (toggle) toggle.style.display = 'flex';
        return linkMap;
    }

    function saveTocState() {
        try {
            var panel = document.getElementById('mdview-toc');
            var collapsed = [];
            document.querySelectorAll('#mdview-toc li.mdview-toc-collapsed').forEach(function(li) {
                var h = li.getAttribute('data-heading');
                if (h) collapsed.push(h);
            });
            localStorage.setItem(tocStateKey(), JSON.stringify({ collapsed: collapsed }));
            var open = !!panel
                && !panel.classList.contains('mdview-toc-hidden')
                && panel.style.display !== 'none';
            localStorage.setItem(TOC_OPEN_KEY, open ? '1' : '0'); // global preference
        } catch (e) {}
    }

    function applyTocOpen(open) {
        var panel = document.getElementById('mdview-toc');
        var toggle = document.getElementById('mdview-toc-toggle');
        if (!panel) return;
        if (open) {
            panel.classList.remove('mdview-toc-hidden');
            document.body.classList.add('mdview-toc-open');
            if (toggle) toggle.textContent = '‹';
        } else {
            panel.classList.add('mdview-toc-hidden');
            document.body.classList.remove('mdview-toc-open');
            if (toggle) toggle.textContent = '☰';
        }
    }

    function restoreTocState() {
        var collapsed = [];
        try {
            var s = JSON.parse(localStorage.getItem(tocStateKey()) || 'null');
            if (s && s.collapsed) collapsed = s.collapsed;
        } catch (e) {}

        collapsed.forEach(function(hid) {
            var li = document.querySelector('#mdview-toc li[data-heading="' + hid + '"]');
            if (!li) return;
            var caret = li.querySelector(':scope > .mdview-toc-row > .mdview-toc-caret');
            if (!caret || caret.classList.contains('mdview-toc-empty')) return;
            li.classList.add('mdview-toc-collapsed');
            caret.textContent = '▸';
        });

        // Open/closed is a global preference so a `t`-minimize sticks across
        // files and across TC's focus-driven reloads. Default open.
        var open = true;
        try {
            var o = localStorage.getItem(TOC_OPEN_KEY);
            if (o !== null) open = (o === '1');
        } catch (e) {}
        applyTocOpen(open);
    }

    function toggleToc() {
        var panel = document.getElementById('mdview-toc');
        if (!panel || panel.style.display === 'none') return;
        var willOpen = panel.classList.contains('mdview-toc-hidden');
        applyTocOpen(willOpen);
        tocActive = willOpen; // opening hands j/k to the TOC; closing hands it back to the body
        saveTocState();
    }
"#);
    assert(is_sealed(VIEWER_SCRIPT_SECOND@));
}

/// The third part of the viewer script holds no `%%` and neither starts nor
/// ends with `%`.
proof fn lemma_script_third_sealed()
    ensures
        is_sealed(VIEWER_SCRIPT_THIRD@),
{
    reveal_strlit(r#"
    function setupScrollSpy(linkMap) {
        var headings = Array.prototype.slice.call(
            document.querySelectorAll('h1,h2,h3,h4,h5,h6')
        ).filter(function(h) { return h.id && linkMap[h.id]; });
        if (!headings.length) return;

        var current = null;
        var ticking = false;

        function update() {
            ticking = false;
            var offset = 100;
            var active = headings[0];
            for (var i = 0; i < headings.length; i++) {
                if (headings[i].getBoundingClientRect().top <= offset) active = headings[i];
                else break;
            }
            if (active === current) return;
            current = active;

            for (var id in linkMap) {
                linkMap[id].classList.remove('mdview-toc-active');
            }
            var link = linkMap[active.id];
            if (!link) return;
            link.classList.add('mdview-toc-active');

            var panel = document.getElementById('mdview-toc');
            if (panel && panel.style.display !== 'none'
                && !panel.classList.contains('mdview-toc-hidden')) {
                var linkTop = link.offsetTop;
                if (linkTop < panel.scrollTop
                    || linkTop > panel.scrollTop + panel.clientHeight - 30) {
                    panel.scrollTop = Math.max(0, linkTop - panel.clientHeight / 2);
                }
            }
        }

        window.addEventListener('scroll', function() {
            if (!ticking) { ticking = true; window.requestAnimationFrame(update); }
        }, { passive: true });
        update();
    }

    function initToc() {
        var linkMap = buildToc();
        if (!linkMap) return;
        restoreTocState();
        setupScrollSpy(linkMap);
        var toggle = document.getElementById('mdview-toc-toggle');
        if (toggle) {
            toggle.addEventListener('click', function(e) {
                e.preventDefault();
                toggleToc();
            });
        }
        // Track which region j/k drive, based on where the user last clicked.
        document.addEventListener('click', function(e) {
            var toc = document.getElementById('mdview-toc');
            var find = document.getElementById('mdview-find');
            if (toc && toc.contains(e.target)) tocActive = true;
            else if (!(find && find.contains(e.target))) tocActive = false;
        }, true);
    }

    // ---- Boot ----
    restoreZoom();
    assignHeadingIds();
    initToc();

    if (!(location.hash && scrollToHash(location.hash))) {
        restoreScroll();
    }

    window.addEventListener('beforeunload', saveScroll);
    setInterval(saveScroll, 1000);

    document.addEventListener('click', function(e) {
        var link = e.target.closest('a');
        var webview = window.chrome && window.chrome.webview;
        if (!link) return;

        var href = link.getAttribute('href');
        if (!href) return;

        if (href.charAt(0) === '#') {
            e.preventDefault();
            scrollToHash(href);
            return;
        }

        if (webview && e.ctrlKey) {
            e.preventDefault();
            webview.postMessage({type: 'openLink', url: link.href || href});
        }
    });

    // ---- Vim-style navigation ----
    var LINE_STEP = 64;
    var pendingG = false, gTimer = null;

    function docBottom() {
        return Math.max(
            document.body.scrollHeight,
            document.documentElement.scrollHeight
        );
    }

    function handleG(e) {
        e.preventDefault();
        if (pendingG) {
            pendingG = false;
            if (gTimer) { clearTimeout(gTimer); gTimer = null; }
            window.scrollTo(0, 0); // gg -> top
        } else {
            pendingG = true;
            gTimer = setTimeout(function() { pendingG = false; gTimer = null; }, 600);
        }
    }

    function tocVisible() {
        var el = document.getElementById('mdview-toc');
        return !!el && el.style.display !== 'none'
            && !el.classList.contains('mdview-toc-hidden');
    }

    // Which region j/k drive: the TOC (true) or the document body (false).
    // Defaults to the TOC when it is open on entry; clicking the body switches
    // to the body, clicking the TOC switches back. This runs after the boot
    // section above, so initToc() has already built and restored the TOC and
    // tocVisible() is accurate here.
    var tocActive = tocVisible();
"#);
    assert(is_sealed(VIEWER_SCRIPT_THIRD@));
}

/// The fourth part of the viewer script holds no `%%` and neither starts nor
/// ends with `%`.
proof fn lemma_script_fourth_sealed()
    ensures
        is_sealed(VIEWER_SCRIPT_FOURTH@),
{
    reveal_strlit(r#"
    function visibleTocLinks() {
        return Array.prototype.slice.call(
            document.querySelectorAll('#mdview-toc a')
        ).filter(function(a) { return a.offsetParent !== null; });
    }

    function currentActiveIndex(links) {
        var active = document.querySelector('#mdview-toc a.mdview-toc-active');
        return active ? links.indexOf(active) : -1;
    }

    // Step the TOC selection to the next/prev visible entry and jump the
    // document to it. Driven by j/k while the TOC is the active region.
    function moveTocSelection(dir) {
        var links = visibleTocLinks();
        if (!links.length) return;
        var next = currentActiveIndex(links) + dir;
        if (next < 0) next = 0;
        if (next > links.length - 1) next = links.length - 1;
        var href = links[next].getAttribute('href');
        if (href && href.charAt(0) === '#') scrollToHash(href);
    }

    // Jump the document to the previous/next heading (bound to [ and ]).
    function jumpHeading(dir) {
        var hs = Array.prototype.slice.call(
            document.querySelectorAll('h1,h2,h3,h4,h5,h6')
        ).filter(function(h) { return h.id; });
        if (!hs.length) return;
        var target = null, i;
        if (dir > 0) {
            for (i = 0; i < hs.length; i++) {
                if (hs[i].getBoundingClientRect().top > 2) { target = hs[i]; break; }
            }
            if (!target) target = hs[hs.length - 1];
        } else {
            for (i = hs.length - 1; i >= 0; i--) {
                if (hs[i].getBoundingClientRect().top < -2) { target = hs[i]; break; }
            }
            if (!target) target = hs[0];
        }
        scrollToHash('#' + target.id);
    }

    // ---- Find bar (triggered by `/`) ----
    function openFind() {
        var bar = document.getElementById('mdview-find');
        if (!bar) return;
        bar.style.display = 'flex';
        var input = document.getElementById('mdview-find-input');
        if (input) { input.focus(); input.select(); }
    }

    function closeFind() {
        var bar = document.getElementById('mdview-find');
        if (bar) bar.style.display = 'none';
        var input = document.getElementById('mdview-find-input');
        if (input) input.blur();
        var status = document.getElementById('mdview-find-status');
        if (status) status.textContent = '';
    }

    function runFind(query, backwards) {
        var status = document.getElementById('mdview-find-status');
        if (!query) { if (status) status.textContent = ''; return; }
        var found = false;
        try {
            // window.find(text, caseSensitive, backwards, wrapAround, wholeWord, inFrames, showDialog)
            found = window.find(query, false, !!backwards, true, false, false, false);
        } catch (err) {}
        if (status) status.textContent = found ? '' : 'No match';
    }

    document.addEventListener('keydown', function(e) {
        var webview = window.chrome && window.chrome.webview;

        if (e.key === 'Escape') {
            if (webview) webview.postMessage({type: 'close'});
            return;
        }

        // Never hijack keys while typing in a field.
        var t = e.target;
        var editable = t && (t.isContentEditable
            || /^(input|textarea|select)$/i.test(t.tagName || ''));
        if (editable) return;

        // Ctrl+d / Ctrl+u: half-page down / up (vim / Sumatra).
        if (e.ctrlKey && !e.altKey && !e.metaKey && (e.key === 'd' || e.key === 'u')) {
            e.preventDefault();
            var half = (window.innerHeight || 600) * 0.5;
            window.scrollBy(0, e.key === 'd' ? half : -half);
            return;
        }

        // Ctrl+f / Ctrl+b: full-page down / up (vim). preventDefault also
        // suppresses the browser's built-in find on Ctrl+f.
        if (e.ctrlKey && !e.altKey && !e.metaKey && (e.key === 'f' || e.key === 'b')) {
            e.preventDefault();
            var page = (window.innerHeight || 600) * 0.9;
            window.scrollBy(0, e.key === 'f' ? page : -page);
            return;
        }

        // Everything below is a plain key (Shift is allowed, for `G`).
        if (e.ctrlKey || e.metaKey || e.altKey) return;
"#);
    assert(is_sealed(VIEWER_SCRIPT_FOURTH@));
}

/// The fifth part of the viewer script holds no `%%` and neither starts nor
/// ends with `%`.
proof fn lemma_script_fifth_sealed()
    ensures
        is_sealed(VIEWER_SCRIPT_FIFTH@),
{
    reveal_strlit(r#"
        switch (e.key) {
            case 'j':
                e.preventDefault();
                if (tocActive && tocVisible()) moveTocSelection(1); // navigate TOC entries
                else window.scrollBy(0, LINE_STEP);                 // otherwise scroll the doc
                return;
            case 'k':
                e.preventDefault();
                if (tocActive && tocVisible()) moveTocSelection(-1);
                else window.scrollBy(0, -LINE_STEP);
                return;
            case '[': e.preventDefault(); jumpHeading(-1); return; // previous heading
            case ']': e.preventDefault(); jumpHeading(1); return;  // next heading
            case '/': e.preventDefault(); openFind(); return;      // open find bar
            case '+': case '=': e.preventDefault(); applyZoom(getZoom() + 0.1); return; // zoom in
            case '-': case '_': e.preventDefault(); applyZoom(getZoom() - 0.1); return; // zoom out
            case 'z': case 'Z': e.preventDefault(); applyZoom(1.2); return;             // zoom to 120%
            case 'G': e.preventDefault(); window.scrollTo(0, docBottom()); return; // Shift+G -> bottom
            case 'g': handleG(e); return;                                          // gg -> top
            case 't': case 'T': e.preventDefault(); toggleToc(); return;
            case 'r': case 'R':
                if (webview) {
                    e.preventDefault();
                    saveScroll();
                    webview.postMessage({type: 'refresh'});
                }
                return;
            case 'e': case 'E': case 'i': case 'I':
                if (webview) {
                    e.preventDefault();
                    webview.postMessage({type: 'edit'});
                }
                return;
        }
    });

    // Find-bar input: Enter = next, Shift+Enter = previous, Esc = close.
    // stopPropagation keeps these from reaching the document handler (whose
    // Escape would otherwise close the Lister).
    var findInput = document.getElementById('mdview-find-input');
    if (findInput) {
        findInput.addEventListener('keydown', function(e) {
            if (e.key === 'Enter') {
                e.preventDefault();
                e.stopPropagation();
                runFind(findInput.value, e.shiftKey);
            } else if (e.key === 'Escape') {
                e.preventDefault();
                e.stopPropagation();
                closeFind();
            } else {
                e.stopPropagation();
            }
        });
    }
})();
"#);
    assert(is_sealed(VIEWER_SCRIPT_FIFTH@));
}

/// The fixed text of the page holds no `%%`, and none of its pieces starts or
/// ends with `%`.
pub proof fn lemma_fixed_text_sealed()
    ensures
        is_sealed(PAGE_HEAD@),
        is_sealed(STYLE_END@),
        is_sealed(TOC_MARKUP@),
        is_sealed(FIND_MARKUP@),
        is_sealed(SCRIPT_OPEN@),
        is_sealed(viewer_script()),
        is_sealed(PAGE_TAIL@),
{
    lemma_markup_sealed();
    lemma_script_first_sealed();
    lemma_script_second_sealed();
    lemma_script_third_sealed();
    lemma_script_fourth_sealed();
    lemma_script_fifth_sealed();
    lemma_sealed_concat(VIEWER_SCRIPT_FIRST@, VIEWER_SCRIPT_SECOND@);
    lemma_sealed_concat(VIEWER_SCRIPT_FIRST@ + VIEWER_SCRIPT_SECOND@, VIEWER_SCRIPT_THIRD@);
    lemma_sealed_concat(
        VIEWER_SCRIPT_FIRST@ + VIEWER_SCRIPT_SECOND@ + VIEWER_SCRIPT_THIRD@,
        VIEWER_SCRIPT_FOURTH@,
    );
    lemma_sealed_concat(
        VIEWER_SCRIPT_FIRST@ + VIEWER_SCRIPT_SECOND@ + VIEWER_SCRIPT_THIRD@
            + VIEWER_SCRIPT_FOURTH@,
        VIEWER_SCRIPT_FIFTH@,
    );
}

} // verus!
