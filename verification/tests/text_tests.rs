use cra_client::numeric::{check_float_literal, decimal_chars};
use cra_client::text::{
    chars_of, contains_chars, find_char, is_space_char, join_chars, join_strings, lower_chars,
    replace_chars, split_chars, str_equal, string_of, to_lower_char, trim_chars,
};

fn text(v: &Vec<char>) -> String {
    string_of(v)
}

#[test]
fn space_test_agrees_with_std_on_every_char() {
    for n in 0u32..=0x10FFFF {
        if let Some(c) = char::from_u32(n) {
            assert_eq!(is_space_char(c), c.is_whitespace(), "U+{:04X}", n);
        }
    }
}

#[test]
fn lower_casing_agrees_with_std_on_every_char() {
    for n in 0u32..=0x10FFFF {
        if let Some(c) = char::from_u32(n) {
            assert_eq!(to_lower_char(c), c.to_ascii_lowercase(), "U+{:04X}", n);
        }
    }
}

#[test]
fn chars_and_strings_convert_both_ways() {
    for s in ["", "a", "héllo wörld", "日本語", "a\nb"] {
        let v = chars_of(s);
        assert_eq!(v, s.chars().collect::<Vec<char>>());
        assert_eq!(string_of(&v), s);
    }
}

#[test]
fn trimming_agrees_with_std() {
    for s in ["", " ", "a", "  a b\t\r\n", "\u{3000}x\u{a0}", "\u{feff}x", " \u{85} ", "\r\n"] {
        assert_eq!(text(&trim_chars(&chars_of(s))), s.trim(), "{:?}", s);
    }
}

#[test]
fn lower_casing_a_text_agrees_with_std() {
    for s in ["", "ABC", "MiXeD.Example.COM", "ÄÖÜ", "123"] {
        assert_eq!(text(&lower_chars(&chars_of(s))), s.to_ascii_lowercase());
    }
}

#[test]
fn finding_a_char_gives_first_index_or_length() {
    let v = chars_of("a=b=c");
    assert_eq!(find_char(&v, '=', 0), 1);
    assert_eq!(find_char(&v, '=', 2), 3);
    assert_eq!(find_char(&v, '=', 4), 5);
    assert_eq!(find_char(&v, '#', 0), 5);
    assert_eq!(find_char(&chars_of(""), '=', 0), 0);
}

#[test]
fn containment_agrees_with_std() {
    for (s, p) in [("", ""), ("abc", ""), ("abc", "bc"), ("abc", "abcd"), ("aab", "ab"), ("abc", "ac")]
    {
        assert_eq!(contains_chars(&chars_of(s), &chars_of(p)), s.contains(p), "{:?} {:?}", s, p);
    }
}

#[test]
fn replacement_agrees_with_std() {
    for (s, from, to) in [
        ("", "a", "b"),
        ("aaa", "a", "bb"),
        ("aaa", "aa", "b"),
        ("abcabc", "bc", ""),
        ("a\\b\"c", "\\", "\\\\"),
        ("xAPP_URL=https://192.168.50.55y", "APP_URL=https://192.168.50.55", "APP_URL=http://192.168.50.55:3000"),
        ("ab", "abc", "x"),
    ] {
        assert_eq!(
            text(&replace_chars(&chars_of(s), &chars_of(from), &chars_of(to))),
            s.replace(from, to),
            "{:?} {:?} {:?}",
            s,
            from,
            to
        );
    }
}

#[test]
fn replacing_an_empty_text_changes_nothing() {
    assert_eq!(text(&replace_chars(&chars_of("abc"), &chars_of(""), &chars_of("x"))), "abc");
    assert_eq!(text(&replace_chars(&chars_of(""), &chars_of(""), &chars_of("x"))), "");
}

#[test]
fn splitting_agrees_with_std() {
    for s in ["", "a", "a,b", ",", "a,,b,", ",a", "192.168.50.55, Example.com ,"] {
        let pieces: Vec<String> = split_chars(&chars_of(s), ',').iter().map(string_of).collect();
        let expected: Vec<String> = s.split(',').map(String::from).collect();
        assert_eq!(pieces, expected, "{:?}", s);
    }
}

#[test]
fn joining_agrees_with_std() {
    for parts in [vec![], vec!["a"], vec!["a", "b"], vec!["", "", "c"]] {
        let owned: Vec<String> = parts.iter().map(|p| p.to_string()).collect();
        assert_eq!(join_strings(&owned, ","), parts.join(","));
    }
}

#[test]
fn joining_the_pieces_of_a_split_gives_the_text_back() {
    for s in ["", "a", "a\nb", "\n", "\n\na\r\n\n", "no break", "x\n"] {
        assert_eq!(text(&join_chars(&split_chars(&chars_of(s), '\n'), '\n')), s, "{:?}", s);
    }
    let parts = vec![chars_of("a"), chars_of(""), chars_of("bc")];
    assert_eq!(text(&join_chars(&parts, ',')), "a,,bc");
    assert_eq!(text(&join_chars(&Vec::new(), ',')), "");
}

#[test]
fn string_equality_is_exact() {
    assert!(str_equal("http", "http"));
    assert!(!str_equal("http", "https"));
    assert!(!str_equal("HTTP", "http"));
    assert!(str_equal("", ""));
}

#[test]
fn float_literals_agree_with_std() {
    for s in [
        "", "1", "1280", "-5", "+5", "1.", ".5", ".", "+", "-", "1e5", "1e", "1e+", "1E-3", "e5",
        "1.5e10", "inf", "-Infinity", "NaN", "+nan", "infinit", "abc", "1_000", "0x10", " 1", "1 ",
        "1..2", "1.2.3", "--1", "1e5.0", "١٢٣", "800.25", "1e+5x", ".e5", "5.e5", "+.5", "-.", "1e-",
        "INF", "iNfInItY", "nan1", "1f", "0", "00.00", "1e0000", "+-1",
    ] {
        assert_eq!(check_float_literal(&chars_of(s)), s.parse::<f64>().is_ok(), "{:?}", s);
    }
}

#[test]
fn decimal_text_agrees_with_std() {
    for n in [0u64, 7, 9, 10, 99, 100, 1234567890, u64::MAX] {
        assert_eq!(text(&decimal_chars(n)), n.to_string());
    }
}
