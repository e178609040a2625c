use zapret_ui::text::{chars_of, contains, is_blank_text, join_texts};

#[test]
fn blank_texts_hold_only_white_space() {
    assert!(is_blank_text(""));
    assert!(is_blank_text("   "));
    assert!(is_blank_text(" \t\r\n"));
    assert!(is_blank_text("\u{3000}\u{a0}"));
    assert!(!is_blank_text("1024"));
    assert!(!is_blank_text("  50000-50100 "));
}

#[test]
fn join_texts_puts_the_separator_between_items() {
    let items = vec!["80".to_string(), "443".to_string(), "8443".to_string()];
    assert_eq!(join_texts(&items, ","), "80,443,8443");
    assert_eq!(join_texts(&vec!["a".to_string()], " "), "a");
    assert_eq!(join_texts(&Vec::new(), " "), "");
}

#[test]
fn contains_finds_runs_of_characters() {
    assert!(contains("winws.exe  1234 Console", "winws.exe"));
    assert!(contains("abc", "bc"));
    assert!(contains("abc", ""));
    assert!(!contains("ab", "abc"));
    assert!(!contains("winws.ex", "winws.exe"));
    assert!(contains("ёжwinws.exe", "winws.exe"));
}

#[test]
fn chars_of_keeps_every_character() {
    assert_eq!(chars_of("aж b"), vec!['a', 'ж', ' ', 'b']);
}

#[test]
fn unicode_white_space_characters_are_blank() {
    let all: String = [
        '\u{9}', '\u{a}', '\u{b}', '\u{c}', '\u{d}', '\u{20}', '\u{85}', '\u{a0}', '\u{1680}',
        '\u{2000}', '\u{2005}', '\u{200a}', '\u{2028}', '\u{2029}', '\u{202f}', '\u{205f}',
        '\u{3000}',
    ]
    .iter()
    .collect();
    assert!(is_blank_text(&all));
    assert!(!is_blank_text("\u{200b}"));
    assert!(!is_blank_text("\u{180e}"));
}
