use animated_corpse::text::{chars_of, join_lines, lines, trim, trim_end, white_space};

#[test]
fn lines_split_on_line_feed_and_crlf() {
    assert_eq!(lines("a\nb\r\nc"), vec!["a", "b", "c"]);
    assert_eq!(lines("a\n"), vec!["a"]);
    assert_eq!(lines("a\n\n"), vec!["a", ""]);
    assert_eq!(lines("\n"), vec![""]);
    assert!(lines("").is_empty());
    assert_eq!(lines("a\rb\r"), vec!["a\rb\r"]);
    assert_eq!(lines("é\r\nü"), vec!["é", "ü"]);
}

#[test]
fn trimming_white_space() {
    assert_eq!(trim_end("ab \t\u{3000}"), "ab");
    assert_eq!(trim("\u{A0} x y \n"), "x y");
    assert_eq!(trim("   "), "");
    assert!(white_space('\u{2028}'));
    assert!(!white_space('x'));
}

#[test]
fn joining_and_characters() {
    assert_eq!(join_lines(&vec!["a", "", "b"]), "a\n\nb");
    assert_eq!(join_lines(&vec![]), "");
    assert_eq!(chars_of("hé"), vec!['h', 'é']);
}
