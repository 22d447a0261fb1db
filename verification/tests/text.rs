use unionc_agent::text::{
    all_hex, byte_length, contains, decimal_text, decimal_text_wide, ends_with, find, from_chars,
    join, lower, only_digits, parse_unsigned, range_text, same, same_ignoring_case, split,
    split_once, starts_with, strip_prefix, strip_suffix, to_bytes, to_chars, trim, upper,
};

#[test]
fn texts_are_cut_and_put_together() {
    let chars = to_chars("añb");
    assert_eq!(from_chars(&chars), "añb");
    assert_eq!(range_text(&chars, 1, 2), "ñ");
    assert_eq!(strip_prefix("prefix", "pre").as_deref(), Some("fix"));
    assert_eq!(strip_prefix("prefix", "fix"), None);
    assert_eq!(strip_suffix("prefix", "fix").as_deref(), Some("pre"));
    assert_eq!(strip_suffix("fix", "prefix"), None);
    assert_eq!(trim("\u{3000} x y\r\n"), "x y");
    assert_eq!(join(&vec!["a".into(), "b".into()], "; "), "a; b");
    assert_eq!(join(&vec![], "; "), "");
    let pieces: Vec<String> = split(&to_chars("a;;b"), ';').iter().map(from_chars).collect();
    assert_eq!(pieces, vec!["a", "", "b"]);
    let (left, right) = split_once(&to_chars("a_b_c"), "_").unwrap();
    assert_eq!((from_chars(&left), from_chars(&right)), ("a".into(), "b_c".into()));
    assert!(split_once(&to_chars("abc"), "_").is_none());
}

#[test]
fn texts_are_searched_and_compared() {
    assert!(same("a", "a") && !same("a", "A"));
    assert!(same_ignoring_case("Ab", "aB"));
    assert!(!same_ignoring_case("é", "É"), "only ASCII letters are folded");
    assert!(starts_with("abc", "ab") && ends_with("abc", "bc") && contains("abc", "b"));
    assert!(!contains("abc", "ac"));
    assert_eq!(find(&to_chars("abab"), &to_chars("ba")), Some(1));
    assert_eq!(find(&to_chars("abab"), &to_chars("bb")), None);
    assert_eq!((lower("AbÉ"), upper("abé")), ("abÉ".into(), "ABé".into()));
}

#[test]
fn numbers_are_written_and_read() {
    assert_eq!(decimal_text(0), "0");
    assert_eq!(decimal_text(u64::MAX), u64::MAX.to_string());
    assert_eq!(decimal_text_wide(u128::MAX), u128::MAX.to_string());
    let parse = |text: &str| parse_unsigned(&to_chars(text), u64::MAX);
    assert_eq!(parse("18446744073709551615"), Some(u64::MAX));
    assert_eq!(parse("18446744073709551616"), None);
    assert_eq!(parse("+007"), Some(7));
    for text in ["", "+", "-1", " 1", "1x"] {
        assert_eq!(parse(text), None);
    }
    assert_eq!(parse_unsigned(&to_chars("60"), 59), None);
    assert!(all_hex(&to_chars("09afAF")) && !all_hex(&to_chars("g")));
    assert!(only_digits(&to_chars("09")) && !only_digits(&to_chars("")));
    assert_eq!(byte_length("aé"), 3);
    assert_eq!(to_bytes("aé"), "aé".as_bytes());
}
