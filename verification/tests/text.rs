use agent_workflow::text::chars_of;
use agent_workflow::text::decimal;
use agent_workflow::text::ends_with_char;
use agent_workflow::text::find_last_char;
use agent_workflow::text::find_text;
use agent_workflow::text::find_text_from;
use agent_workflow::text::matches_at;
use agent_workflow::text::parse_u32;
use agent_workflow::text::push_decimal;
use agent_workflow::text::same_text;
use agent_workflow::text::skip_leading;
use agent_workflow::text::split_lines;
use agent_workflow::text::split_words;
use agent_workflow::text::starts_with_text;
use agent_workflow::text::text_between;
use agent_workflow::text::text_of;
use agent_workflow::text::trim_end_char;
use agent_workflow::text::trim_range;
use agent_workflow::text::trimmed_text;

fn texts(pieces: Vec<Vec<char>>) -> Vec<String> {
    pieces.iter().map(|p| p.iter().collect()).collect()
}

#[test]
fn numbers_in_decimal() {
    assert_eq!(decimal(0), "0");
    assert_eq!(decimal(7), "7");
    assert_eq!(decimal(10), "10");
    assert_eq!(decimal(1234567890), "1234567890");
    assert_eq!(decimal(u64::MAX), "18446744073709551615");
    let mut out = "n=".to_string();
    push_decimal(&mut out, 405);
    assert_eq!(out, "n=405");
}

#[test]
fn ends_of_a_text() {
    assert!(same_text("a", "a"));
    assert!(!same_text("a", "A"));
    assert!(same_text("", ""));
    assert!(ends_with_char("abc/", '/'));
    assert!(!ends_with_char("abc", '/'));
    assert!(!ends_with_char("", '/'));
    assert_eq!(trim_end_char("abc///", '/'), "abc");
    assert_eq!(trim_end_char("a/b/", '/'), "a/b");
    assert_eq!(trim_end_char("///", '/'), "");
    assert_eq!(trim_end_char("abc", '/'), "abc");
    assert_eq!(trim_end_char("", '/'), "");
    assert_eq!(trim_end_char("\u{e9}\u{e9}", '\u{e9}'), "");
}

#[test]
fn pieces_of_a_text() {
    let chars = chars_of("h\u{e9}llo world");
    assert_eq!(chars.len(), 11);
    assert_eq!(text_of(&chars), "h\u{e9}llo world");
    assert_eq!(text_between(&chars, 1, 5), "\u{e9}llo");
    assert_eq!(text_between(&chars, 3, 3), "");
    assert_eq!(text_between(&chars, 0, 11), "h\u{e9}llo world");
    assert!(starts_with_text(&chars, "h\u{e9}"));
    assert!(starts_with_text(&chars, ""));
    assert!(!starts_with_text(&chars, "hello"));
    assert!(!starts_with_text(&chars_of("h"), "h\u{e9}"));
    assert_eq!(find_last_char(&chars, 'l'), Some(9));
    assert_eq!(find_last_char(&chars, 'h'), Some(0));
    assert_eq!(find_last_char(&chars, 'z'), None);
    assert_eq!(find_last_char(&Vec::new(), 'z'), None);
    assert_eq!(skip_leading(&chars_of("==1.0"), 0, 5, '='), 2);
    assert_eq!(skip_leading(&chars_of("==1.0"), 1, 5, '='), 2);
    assert_eq!(skip_leading(&chars_of("==1.0"), 2, 5, '='), 2);
    assert_eq!(skip_leading(&chars_of("===="), 0, 3, '='), 3);
    assert_eq!(skip_leading(&chars_of("===="), 4, 4, '='), 4);
}

#[test]
fn places_of_a_text_in_another() {
    let hay = chars_of("abcabcabd");
    assert_eq!(find_text(&hay, "abc"), Some(0));
    assert_eq!(find_text(&hay, "abd"), Some(6));
    assert_eq!(find_text(&hay, "abe"), None);
    assert_eq!(find_text(&hay, ""), Some(0));
    assert_eq!(find_text(&hay, "abcabcabda"), None);
    assert_eq!(find_text(&Vec::new(), ""), Some(0));
    assert_eq!(find_text(&Vec::new(), "a"), None);
    let needle = chars_of("abc");
    assert_eq!(find_text_from(&hay, &needle, 0), Some(0));
    assert_eq!(find_text_from(&hay, &needle, 1), Some(3));
    assert_eq!(find_text_from(&hay, &needle, 4), None);
    assert_eq!(find_text_from(&hay, &needle, 100), None);
    assert_eq!(find_text_from(&hay, &Vec::new(), 9), Some(9));
    assert_eq!(find_text_from(&hay, &Vec::new(), 10), None);
    assert!(matches_at(&hay, &needle, 3));
    assert!(!matches_at(&hay, &needle, 6));
    assert!(!matches_at(&hay, &needle, 7));
    assert!(!matches_at(&hay, &needle, usize::MAX));
    assert!(matches_at(&hay, &Vec::new(), 9));
    assert!(!matches_at(&hay, &Vec::new(), 10));
    for (text, pattern) in [("abcabcabd", "cab"), ("aaa", "aa"), ("", "x"), ("xyz", "z"), ("xyz", "")] {
        let expected = text.find(pattern).map(|byte| text[..byte].chars().count());
        assert_eq!(find_text(&chars_of(text), pattern), expected);
    }
}

#[test]
fn text_without_the_space_around_it() {
    let chars = chars_of("  \t a b \u{a0}\n");
    assert_eq!(trim_range(&chars, 0, chars.len()), (4, 7));
    assert_eq!(trimmed_text(&chars, 0, chars.len()), "a b");
    assert_eq!(trimmed_text(&chars, 5, chars.len()), "b");
    assert_eq!(trimmed_text(&chars, 0, 3), "");
    assert_eq!(trimmed_text(&chars, 4, 4), "");
    for text in ["", " ", "a", " a", "a ", "\u{3000}x\u{2003}", "\r\n x y \r\n", "\u{85}z\u{1680}"] {
        let chars = chars_of(text);
        assert_eq!(trimmed_text(&chars, 0, chars.len()), text.trim(), "{:?}", text);
    }
}

#[test]
fn lines_and_words() {
    assert_eq!(texts(split_lines(&chars_of("a\nb\r\n\nc"))), vec!["a", "b\r", "", "c"]);
    assert_eq!(texts(split_lines(&chars_of("a\n"))), vec!["a", ""]);
    assert_eq!(texts(split_lines(&chars_of(""))), vec![""]);
    assert_eq!(texts(split_lines(&chars_of("\n"))), vec!["", ""]);
    assert_eq!(texts(split_words(&chars_of("  one two\tthree\n"))), vec!["one", "two", "three"]);
    assert!(split_words(&chars_of(" \t\n")).is_empty());
    assert!(split_words(&chars_of("")).is_empty());
    for text in ["a b", " a  b ", "require x v1.2 // indirect", "\u{a0}k\u{2003}v", "one"] {
        let expected: Vec<String> = text.split_whitespace().map(|w| w.to_string()).collect();
        assert_eq!(texts(split_words(&chars_of(text))), expected, "{:?}", text);
    }
}

#[test]
fn numbers_read_from_a_text() {
    let read = |text: &str| {
        let chars = chars_of(text);
        parse_u32(&chars, 0, chars.len())
    };
    for text in [
        "0", "7", "007", "+7", "+", "", "-7", "++7", "7+", " 7", "7 ", "4294967295", "4294967296",
        "04294967295", "99999999999999999999999999", "1_000", "12a", "\u{663}",
    ] {
        assert_eq!(read(text), text.parse::<u32>().ok(), "{:?}", text);
    }
    assert_eq!(read("4294967295"), Some(u32::MAX));
    assert_eq!(read("+0"), Some(0));
    let chars = chars_of("pull/42/files");
    assert_eq!(parse_u32(&chars, 5, 7), Some(42));
    assert_eq!(parse_u32(&chars, 5, 8), None);
    assert_eq!(parse_u32(&chars, 5, 5), None);
}
