use kenbun::number::{decimal_string, parse_u16};
use kenbun::text::{chars_of, contains, is_white_space_char, remove_occurrences, string_of, trim_chars};

fn chars(s: &str) -> Vec<char> {
    s.chars().collect()
}

#[test]
fn chars_and_strings_round_trip() {
    let v = chars_of("héllo → wörld");
    assert_eq!(v, chars("héllo → wörld"));
    assert_eq!(string_of(&v), "héllo → wörld");
    assert_eq!(string_of(&Vec::new()), "");
}

#[test]
fn contains_finds_substrings() {
    assert!(contains(&chars("{\"express\": \"4.0\"}"), &chars("\"express\"")));
    assert!(!contains(&chars("{\"expressive\": 1}"), &chars("\"express\"")));
    assert!(contains(&chars("abc"), &chars("")));
    assert!(contains(&chars(""), &chars("")));
    assert!(!contains(&chars("ab"), &chars("abc")));
    assert!(contains(&chars("aab"), &chars("ab")));
    assert!(contains(&chars("xyzabc"), &chars("abc")));
}

#[test]
fn remove_occurrences_matches_std_replace() {
    let pat = chars("\\\\?\\");
    for s in [
        "\\\\?\\C:\\Users\\dev\\app",
        "C:\\plain\\path",
        "",
        "\\\\?\\\\\\?\\x",
        "a\\\\\\?\\b",
        "\\\\?",
    ] {
        let expected = s.replace("\\\\?\\", "");
        assert_eq!(string_of(&remove_occurrences(&chars(s), &pat)), expected);
    }
}

#[test]
fn white_space_matches_std_for_every_char() {
    for u in 0u32..0x110000 {
        if let Some(c) = char::from_u32(u) {
            assert_eq!(is_white_space_char(c), c.is_whitespace(), "U+{:04X}", u);
        }
    }
}

#[test]
fn trim_matches_std_trim() {
    for s in ["  1.1.38\n", "\t\r\n", "", "x", " a b ", "\u{3000}v1\u{85}", "\u{200b}z"] {
        assert_eq!(string_of(&trim_chars(&chars(s))), s.trim());
    }
}

#[test]
fn decimal_text_of_numbers() {
    assert_eq!(decimal_string(0), "0");
    assert_eq!(decimal_string(7), "7");
    assert_eq!(decimal_string(3000), "3000");
    assert_eq!(decimal_string(65535), "65535");
    assert_eq!(decimal_string(u64::MAX), u64::MAX.to_string());
}

#[test]
fn parse_u16_agrees_with_std() {
    for s in [
        "3000", "+80", "+", "", "-1", "65535", "65536", "00080", "12a", "99999",
        "\u{0661}\u{0662}\u{0663}\u{0664}", " 1", "1 ", "0", "++1", "4294967296",
    ] {
        assert_eq!(parse_u16(&chars(s)), s.parse::<u16>().ok(), "input {:?}", s);
    }
}

#[test]
fn decimal_then_parse_gives_the_port_back() {
    for n in 0u16..=u16::MAX {
        let text = decimal_string(n as u64);
        assert_eq!(parse_u16(&chars(&text)), Some(n));
    }
}
