use web5_pds::text::{
    chars_of, comes_before, contains, decimal_of, has_prefix, has_suffix, matches_at,
    parse_decimal, same_text, split_lines, string_of, subvec, trimmed,
};

fn cs(s: &str) -> Vec<char> {
    s.chars().collect()
}

fn lines_of(s: &str) -> Vec<String> {
    split_lines(&cs(s)).iter().map(|l| l.iter().collect()).collect()
}

#[test]
fn characters_and_strings_convert_both_ways() {
    assert_eq!(chars_of("héllo"), vec!['h', 'é', 'l', 'l', 'o']);
    assert_eq!(string_of(&vec!['a', 'ß', '字']), "aß字");
    assert_eq!(string_of(&chars_of("")), "");
    assert_eq!(subvec(&cs("abcdef"), 2, 4), vec!['c', 'd']);
    assert_eq!(subvec(&cs("abc"), 3, 3), Vec::<char>::new());
}

#[test]
fn lines_split_as_the_standard_library_does() {
    for text in [
        "",
        "a",
        "a\n",
        "a\nb",
        "a\r\nb\r\n",
        "\n",
        "\n\n",
        "a\r",
        "a\rb\nc",
        "\r\n",
        "a\n\nb",
        "x\r\r\ny",
        "one\ntwo\r\nthree\r",
    ] {
        let expected: Vec<String> = text.lines().map(|l| l.to_string()).collect();
        assert_eq!(lines_of(text), expected, "{text:?}");
    }
}

#[test]
fn prefixes_suffixes_and_substrings() {
    assert!(has_prefix(&cs("Timestamp: 1"), &cs("Timestamp: ")));
    assert!(!has_prefix(&cs("Time"), &cs("Timestamp: ")));
    assert!(has_prefix(&cs("abc"), &cs("")));
    assert!(has_suffix(&cs("alice.example"), &cs(".example")));
    assert!(has_suffix(&cs("abc"), &cs("")));
    assert!(!has_suffix(&cs("ple"), &cs("example")));
    assert!(matches_at(&cs("abcabc"), 3, &cs("abc")));
    assert!(!matches_at(&cs("abcabc"), 4, &cs("abc")));
    assert!(!matches_at(&cs("abc"), 7, &cs("")));
    assert!(matches_at(&cs("abc"), 3, &cs("")));
    assert!(contains(&cs("hello world"), &cs("o w")));
    assert!(contains(&cs("hello"), &cs("hello")));
    assert!(!contains(&cs("hello"), &cs("hello!")));
    assert!(contains(&cs(""), &cs("")));
    assert!(same_text("abc", "abc"));
    assert!(!same_text("abc", "abd"));
    assert!(!same_text("abc", "ab"));
}

#[test]
fn trimming_takes_unicode_white_space_off_both_ends() {
    for text in [
        "",
        " ",
        "  a b  ",
        "\t\n\r x \u{b}\u{c}",
        "\u{85}x\u{a0}",
        "\u{1680}\u{2000}\u{200a}x\u{2028}\u{2029}\u{202f}\u{205f}\u{3000}",
        "\u{200b}x\u{200b}",
        "\u{feff}x",
        "a",
    ] {
        let expected: Vec<char> = text.trim().chars().collect();
        assert_eq!(trimmed(&cs(text)), expected, "{text:?}");
    }
}

#[test]
fn decimal_numbers_parse_as_the_standard_library_does() {
    for text in [
        "",
        "0",
        "+0",
        "007",
        "+",
        "-",
        "-0",
        "++1",
        "1+",
        "12345678901234567890",
        "18446744073709551615",
        "18446744073709551616",
        "+18446744073709551615",
        "000000000000000000000000000000018446744073709551615",
        "99999999999999999999",
        " 1",
        "1 ",
        "1_000",
        "0x10",
        "١٢",
        "1e3",
    ] {
        assert_eq!(parse_decimal(&cs(text)), text.parse::<u64>().ok(), "{text:?}");
    }
}

#[test]
fn decimal_numbers_are_written_shortest() {
    for n in [0u64, 1, 9, 10, 11, 99, 100, 101, 1234567890, u64::MAX - 1, u64::MAX] {
        assert_eq!(string_of(&decimal_of(n)), n.to_string());
        assert_eq!(parse_decimal(&decimal_of(n)), Some(n));
    }
}

#[test]
fn texts_compare_in_dictionary_order() {
    for (a, b) in [
        ("", ""),
        ("", "a"),
        ("a", ""),
        ("a", "a"),
        ("a", "b"),
        ("b", "a"),
        ("ab", "abc"),
        ("abc", "ab"),
        ("3jzfcijpj2z2a", "3jzfcijpj2z2b"),
        ("r0", "r1"),
        ("r9", "r10"),
        ("é", "z"),
        ("z", "é"),
        ("\u{10000}", "\u{ffff}"),
    ] {
        assert_eq!(comes_before(&cs(a), &cs(b)), a < b, "{a:?} {b:?}");
    }
}
