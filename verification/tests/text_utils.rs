use mdview::text::{chars_of, replace_chars, string_of, trim_chars, white_space, TrimSet};

fn chars(s: &str) -> Vec<char> {
    s.chars().collect()
}

#[test]
fn white_space_matches_std_for_every_char() {
    for code in 0u32..=0x10FFFF {
        if let Some(c) = char::from_u32(code) {
            assert_eq!(white_space(c), c.is_whitespace(), "U+{:04X}", code);
        }
    }
}

#[test]
fn chars_and_string_round_trip() {
    for s in ["", "abc", "héllo wörld", "黑风雷 👨‍👩‍👧‍👦", "\u{feff}---\r\n"] {
        let v = chars_of(s);
        assert_eq!(v, chars(s));
        assert_eq!(string_of(&v), s);
    }
}

#[test]
fn replace_chars_agrees_with_str_replace() {
    let cases = [
        ("aaa", "aa", "b"),
        ("aaaa", "aa", "b"),
        ("src=\"/x\" src=\"/y\"", "src=\"/", "src=\""),
        ("src=\"//cdn\"", "src=\"/", "src=\""),
        ("no match here", "zz", "y"),
        ("", "x", "y"),
        ("%%BG%%%%BG%%", "%%BG%%", "#fff"),
        ("a\r\nb\r\r\nc", "\r\n", "\n"),
        ("ééé", "é", "e"),
    ];
    for (s, pat, rep) in cases {
        let got = replace_chars(&chars(s), &chars(pat), &chars(rep));
        assert_eq!(got, chars(&s.replace(pat, rep)), "{:?} {:?} {:?}", s, pat, rep);
    }
}

#[test]
fn trim_chars_agrees_with_std_trims() {
    let cases = ["", "  ", "\n\nx\n", "\u{3000} a b \u{a0}", "x", " \t\r\n y z \n", "\n\n\n"];
    for s in cases {
        assert_eq!(trim_chars(&chars(s), TrimSet::WhiteSpace), chars(s.trim()), "{:?}", s);
        assert_eq!(trim_chars(&chars(s), TrimSet::LineFeeds), chars(s.trim_matches('\n')), "{:?}", s);
    }
}
