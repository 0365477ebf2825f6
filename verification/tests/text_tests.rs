use easy_lang::text::{
    chars_of, lines_of, push_decimal, push_padded2, push_signed, space, split_words, string_of,
    trimmed,
};

fn chars(s: &str) -> Vec<char> {
    s.chars().collect()
}

#[test]
fn decimal_of_numbers() {
    let mut s = String::new();
    push_decimal(&mut s, 0);
    assert_eq!(s, "0");
    let mut s = String::from("x");
    push_decimal(&mut s, 1234567890);
    assert_eq!(s, "x1234567890");
}

#[test]
fn signed_decimal_of_extremes() {
    let mut s = String::new();
    push_signed(&mut s, i64::MIN);
    assert_eq!(s, i64::MIN.to_string());
    let mut s = String::new();
    push_signed(&mut s, -7);
    assert_eq!(s, "-7");
    let mut s = String::new();
    push_signed(&mut s, i64::MAX);
    assert_eq!(s, i64::MAX.to_string());
}

#[test]
fn padded_to_two_digits() {
    for n in [0u32, 5, 9, 10, 42, 99, 123] {
        let mut s = String::new();
        push_padded2(&mut s, n);
        assert_eq!(s, format!("{:02}", n));
    }
}

#[test]
fn whitespace_matches_std() {
    for c in [' ', '\t', '\n', '\r', '\u{b}', '\u{c}', '\u{85}', '\u{a0}', '\u{1680}', '\u{2000}',
        '\u{200a}', '\u{2028}', '\u{2029}', '\u{202f}', '\u{205f}', '\u{3000}', 'a', '\u{200b}',
        '\u{180e}', '\u{feff}', ';', '$', 'я'] {
        assert_eq!(space(c), c.is_whitespace(), "{:?}", c);
    }
}

#[test]
fn trimming_matches_std() {
    for s in ["", "   ", "  a b  ", "\u{3000}x\u{a0}", "abc", "\t;\n"] {
        let t = trimmed(&chars(s));
        assert_eq!(t, chars(s.trim()));
    }
}

#[test]
fn lines_match_std() {
    for s in ["", "\n", "a", "a\n", "a\nb", "a\r\nb\r\n", "a\rb\n\n", "x\n\ny\r", "\r\n\r\n"] {
        let ls = lines_of(&chars(s));
        let expected: Vec<Vec<char>> = s.lines().map(chars).collect();
        assert_eq!(ls, expected, "{:?}", s);
    }
}

#[test]
fn words_match_std() {
    for s in ["", "   ", "one", " one  two\tthree\n", "I am\u{a0}here", "a b c "] {
        let ws = split_words(s);
        let expected: Vec<String> = s.split_whitespace().map(|w| w.to_string()).collect();
        assert_eq!(ws, expected, "{:?}", s);
    }
}

#[test]
fn chars_round_trip() {
    let s = "Привіт, світ! 你好";
    let v = chars_of(s);
    assert_eq!(v, chars(s));
    assert_eq!(string_of(&v), s);
}
