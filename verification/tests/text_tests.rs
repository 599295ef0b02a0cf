use kickmess::text::{char_is_whitespace, chars_eq, split_chars, str_chars, trim_chars};

fn chars(s: &str) -> Vec<char> {
    s.chars().collect()
}

fn pieces(s: &str, sep: char) -> Vec<String> {
    split_chars(&chars(s), sep).iter().map(|p| p.iter().collect()).collect()
}

#[test]
fn split_like_str_split() {
    for (s, sep) in [("a;b;", ';'), ("", ';'), (";", ';'), ("abc", ';'), ("x=y=z", '='), (";;a", ';')] {
        let expected: Vec<String> = s.split(sep).map(|p| p.to_string()).collect();
        assert_eq!(pieces(s, sep), expected);
    }
}

#[test]
fn trim_like_str_trim() {
    for s in ["  a b  ", "\n\t x", "", "   ", "\u{a0}y\u{3000}", "\u{2009}z\u{200b}"] {
        let t: String = trim_chars(&chars(s)).iter().collect();
        assert_eq!(t, s.trim());
    }
}

#[test]
fn whitespace_like_char_is_whitespace() {
    for u in 0u32..0x3100 {
        if let Some(c) = char::from_u32(u) {
            assert_eq!(char_is_whitespace(c), c.is_whitespace(), "{:x}", u);
        }
    }
}

#[test]
fn chars_helpers() {
    assert_eq!(str_chars("h\u{e9}llo"), chars("h\u{e9}llo"));
    assert!(chars_eq(&chars("abc"), &chars("abc")));
    assert!(!chars_eq(&chars("abc"), &chars("abd")));
    assert!(!chars_eq(&chars("ab"), &chars("abc")));
}
