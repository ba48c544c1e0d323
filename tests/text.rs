use notes_git::text::{contains, count_nonempty_lines, lines, parse_count, split_char, starts_with, trim};

#[test]
fn trim_unicode_whitespace() {
    assert_eq!(trim("\u{3000}\t note \u{a0}\n"), "note");
    assert_eq!(trim(" \n\t"), "");
    assert_eq!(trim("a b"), "a b");
}

#[test]
fn contains_and_prefix() {
    assert!(contains("abcabd", "abd"));
    assert!(!contains("abcab", "abd"));
    assert!(contains("x", ""));
    assert!(starts_with("git@host", "git@"));
    assert!(!starts_with("gi", "git@"));
}

#[test]
fn lines_follow_str_lines() {
    for text in ["", "a", "a\n", "a\r\nb", "\n\nx\r", "a\n\r\n", "é\nü"] {
        let expected: Vec<String> = text.lines().map(|l| l.to_string()).collect();
        assert_eq!(lines(text), expected, "text {:?}", text);
    }
}

#[test]
fn nonempty_lines_counted() {
    assert_eq!(count_nonempty_lines(" M a.md\r\n\r\n?? b.md\n\n"), 2);
    assert_eq!(count_nonempty_lines(""), 0);
}

#[test]
fn split_keeps_empty_pieces() {
    assert_eq!(split_char("\t1\t", '\t'), vec!["".to_string(), "1".to_string(), "".to_string()]);
    assert_eq!(split_char("", '\t'), vec!["".to_string()]);
}

#[test]
fn counts_parse() {
    assert_eq!(parse_count("0"), 0);
    assert_eq!(parse_count("042"), 42);
    assert_eq!(parse_count("2147483647"), 2147483647);
    assert_eq!(parse_count("2147483648"), 0);
    assert_eq!(parse_count("-3"), 0);
    assert_eq!(parse_count(""), 0);
    assert_eq!(parse_count("1 "), 0);
}
