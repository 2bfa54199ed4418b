use gh_cherry::text::{
    char_is_whitespace, chars_of, contains, decimal_string, find_char, find_from, first_word_range, matches_at,
    parse_u32_range, replace, string_of, trim_matches_range, trim_range,
};

fn chars(text: &str) -> Vec<char> {
    text.chars().collect()
}

fn parse(text: &str) -> Option<u32> {
    let c = chars(text);
    parse_u32_range(&c, 0, c.len())
}

fn trimmed(text: &str) -> String {
    let c = chars(text);
    let (a, b) = trim_range(&c, 0, c.len());
    string_of(&c, a, b)
}

#[test]
fn chars_and_strings_convert_both_ways() {
    assert_eq!(chars_of("héllo"), vec!['h', 'é', 'l', 'l', 'o']);
    assert_eq!(chars_of(""), Vec::<char>::new());
    let c = chars("héllo wörld");
    assert_eq!(string_of(&c, 0, c.len()), "héllo wörld");
    assert_eq!(string_of(&c, 6, 11), "wörld");
    assert_eq!(string_of(&c, 3, 3), "");
}

#[test]
fn decimal_strings_match_the_standard_format() {
    for n in [0u64, 1, 9, 10, 11, 99, 100, 101, 12345, 4294967295, 4294967296, u64::MAX] {
        assert_eq!(decimal_string(n), n.to_string());
    }
}

#[test]
fn unsigned_numbers_parse_like_the_standard_parser() {
    for text in [
        "0", "1", "42", "0042", "+7", "++7", "-7", "+", "", " 1", "1 ", "4294967295",
        "4294967296", "18446744073709551616", "12a", "a12", "1_000", "٣",
    ] {
        assert_eq!(parse(text), text.parse::<u32>().ok(), "for {:?}", text);
    }
    assert_eq!(parse("42"), Some(42));
    assert_eq!(parse("4294967295"), Some(u32::MAX));
    assert_eq!(parse("4294967296"), None);
}

#[test]
fn trimming_matches_the_standard_trim() {
    for text in [
        "", " ", "a", " a", "a ", "  a b  ", "\t\r\n x \n", "\u{a0}x\u{2003}", "x\u{200b}",
        "　wide　",
    ] {
        assert_eq!(trimmed(text), text.trim(), "for {:?}", text);
    }
}

#[test]
fn trim_matches_strips_the_character_at_both_ends() {
    for text in ["", "\"", "\"\"", "\"a\"", "a\"b", "\"\"a\"\"", "a", "\"a"] {
        let c = chars(text);
        let (a, b) = trim_matches_range(&c, 0, c.len(), '"');
        assert_eq!(string_of(&c, a, b), text.trim_matches('"'), "for {:?}", text);
    }
}

#[test]
fn first_word_is_the_first_run_without_whitespace() {
    for text in ["", "  ", "one", "  one two", "\tone\ntwo", "one  "] {
        let c = chars(text);
        let (a, b) = first_word_range(&c, 0, c.len());
        assert_eq!(
            string_of(&c, a, b),
            text.split_whitespace().next().unwrap_or(""),
            "for {:?}",
            text
        );
    }
}

#[test]
fn searching_finds_the_first_occurrence() {
    let text = chars("abcabcabd");
    assert_eq!(find_from(&text, 0, &chars("ab")), Some(0));
    assert_eq!(find_from(&text, 1, &chars("ab")), Some(3));
    assert_eq!(find_from(&text, 4, &chars("abd")), Some(6));
    assert_eq!(find_from(&text, 7, &chars("ab")), None);
    assert_eq!(find_from(&text, 0, &chars("x")), None);
    assert_eq!(find_from(&text, 0, &chars("")), Some(0));
    assert_eq!(find_from(&text, 9, &chars("")), Some(9));
    assert_eq!(find_from(&text, 10, &chars("")), None);
    assert_eq!(find_from(&chars(""), 0, &chars("a")), None);
    assert!(matches_at(&text, 6, &chars("abd")));
    assert!(!matches_at(&text, 7, &chars("abd")));
    assert!(!matches_at(&text, 100, &chars("")));
    assert!(contains(&text, &chars("cab")));
    assert!(contains(&text, &chars("")));
    assert!(!contains(&text, &chars("abcd")));
    assert_eq!(find_char(&text, 0, text.len(), 'c'), 2);
    assert_eq!(find_char(&text, 3, text.len(), 'c'), 5);
    assert_eq!(find_char(&text, 6, text.len(), 'c'), 9);
    assert_eq!(find_char(&text, 0, 2, 'c'), 2);
}

#[test]
fn replacing_matches_the_standard_replace() {
    for (text, pat, with) in [
        ("aaa", "a", "b"),
        ("aaa", "aa", "b"),
        ("abcabc", "bc", ""),
        ("abc", "x", "y"),
        ("", "x", "y"),
        ("{task_id}{task_id}", "{task_id}", "T"),
        ("ababa", "aba", "-"),
        ("héllo", "é", "e"),
    ] {
        assert_eq!(
            replace(&chars(text), &chars(pat), with),
            text.replace(pat, with),
            "for {:?} {:?} {:?}",
            text,
            pat,
            with
        );
    }
}

#[test]
fn whitespace_is_what_the_standard_library_calls_whitespace() {
    for code in 0..=0x10FFFFu32 {
        if let Some(c) = char::from_u32(code) {
            assert_eq!(char_is_whitespace(c), c.is_whitespace(), "for U+{:04X}", code);
        }
    }
    assert!(char_is_whitespace(' '));
    assert!(char_is_whitespace('\u{3000}'));
    assert!(!char_is_whitespace('\u{200B}'));
    assert!(!char_is_whitespace('a'));
}
