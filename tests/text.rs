use portkill::text::{contains_text, lines, words};

#[test]
fn lines_split_at_line_feeds() {
    assert_eq!(lines("a\nb\nc"), vec!["a", "b", "c"]);
}

#[test]
fn lines_drop_carriage_return_before_line_feed() {
    assert_eq!(lines("a\r\nb\r\n"), vec!["a", "b"]);
}

#[test]
fn lines_keep_empty_inner_lines_and_no_trailing_one() {
    assert_eq!(lines("\na\n\nb\n"), vec!["", "a", "", "b"]);
}

#[test]
fn lines_of_empty_text_are_none() {
    assert!(lines("").is_empty());
}

#[test]
fn lines_keep_final_carriage_return_without_line_feed() {
    assert_eq!(lines("a\r"), vec!["a\r"]);
}

#[test]
fn words_split_on_runs_of_white_space() {
    assert_eq!(words("  node \t 12345  user\n"), vec!["node", "12345", "user"]);
}

#[test]
fn words_split_on_unicode_white_space() {
    assert_eq!(words("a\u{3000}b\u{A0}c"), vec!["a", "b", "c"]);
}

#[test]
fn words_of_blank_text_are_none() {
    assert!(words(" \t\r\n").is_empty());
}

#[test]
fn contains_finds_a_piece() {
    assert!(contains_text("TCP 0.0.0.0:8080 LISTENING", ":8080"));
    assert!(!contains_text("TCP 0.0.0.0:808 LISTENING", ":8080"));
    assert!(contains_text("abc", ""));
    assert!(!contains_text("", "a"));
}
