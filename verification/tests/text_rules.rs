use web_content_extract::text::{chars_of, contains_exec, is_white_space_char, replace_newlines, trim_chars};

fn chars(s: &str) -> Vec<char> {
    s.chars().collect()
}

fn text(cs: &[char]) -> String {
    cs.iter().collect()
}

#[test]
fn chars_of_keeps_order() {
    assert_eq!(chars_of("héllo"), vec!['h', 'é', 'l', 'l', 'o']);
    assert!(chars_of("").is_empty());
}

#[test]
fn white_space_follows_unicode() {
    for c in [' ', '\t', '\n', '\r', '\u{0b}', '\u{0c}', '\u{85}', '\u{a0}', '\u{1680}', '\u{2000}', '\u{200a}', '\u{2028}', '\u{2029}', '\u{202f}', '\u{205f}', '\u{3000}'] {
        assert!(is_white_space_char(c), "{:?}", c);
        assert_eq!(is_white_space_char(c), c.is_whitespace());
    }
    for c in ['a', '0', '\u{200b}', '\u{180e}', '-', '\u{feff}'] {
        assert!(!is_white_space_char(c), "{:?}", c);
        assert_eq!(is_white_space_char(c), c.is_whitespace());
    }
}

#[test]
fn contains_finds_substrings() {
    assert!(contains_exec(&chars("this page was blocked"), &chars("blocked")));
    assert!(contains_exec(&chars("abc"), &chars("")));
    assert!(contains_exec(&chars(""), &chars("")));
    assert!(!contains_exec(&chars("ab"), &chars("abc")));
    assert!(!contains_exec(&chars("captcha"), &chars("captchas")));
    assert!(contains_exec(&chars("xxcaptcha"), &chars("captcha")));
    assert!(!contains_exec(&chars("acces denied"), &chars("access denied")));
}

#[test]
fn trim_matches_str_trim() {
    for s in ["  a b  ", "\n\tx\u{3000}", "", "   ", "abc", "\u{a0}é\u{a0}"] {
        assert_eq!(text(&trim_chars(&chars(s))), s.trim());
    }
}

#[test]
fn newlines_become_br() {
    assert_eq!(text(&replace_newlines(&chars("a\nb\n\nc"))), "a<br>b<br><br>c");
    assert_eq!(text(&replace_newlines(&chars("no breaks"))), "no breaks");
    assert_eq!(text(&replace_newlines(&chars("\r\n"))), "\r<br>");
}
