use rdbg_launcher::search::{chars_of, contains};

#[test]
fn chars_of_keeps_every_character() {
    assert_eq!(chars_of("a\u{e9}\u{4e16}!"), vec!['a', '\u{e9}', '\u{4e16}', '!']);
    assert_eq!(chars_of(""), Vec::<char>::new());
}

#[test]
fn empty_needle_is_in_every_text() {
    assert!(contains("", ""));
    assert!(contains("abc", ""));
}

#[test]
fn nothing_but_the_empty_text_is_in_the_empty_text() {
    assert!(!contains("", "a"));
}

#[test]
fn needle_longer_than_hay() {
    assert!(!contains("ab", "abc"));
}

#[test]
fn needle_at_the_start_in_the_middle_and_at_the_end() {
    assert!(contains("abcdef", "abc"));
    assert!(contains("abcdef", "cd"));
    assert!(contains("abcdef", "def"));
    assert!(contains("abcdef", "abcdef"));
}

#[test]
fn needle_absent() {
    assert!(!contains("abcdef", "ce"));
    assert!(!contains("abcdef", "fa"));
    assert!(!contains("abcdef", "abcdefg"));
}

#[test]
fn a_failed_start_does_not_hide_a_later_match() {
    assert!(contains("aaab", "aab"));
    assert!(contains("abababc", "ababc"));
}

#[test]
fn letters_must_match_in_case() {
    assert!(!contains("ABC", "abc"));
}

#[test]
fn characters_outside_ascii() {
    assert!(contains("gr\u{fc}\u{df}e, Welt", "\u{fc}\u{df}"));
    assert!(!contains("gr\u{fc}\u{df}e", "\u{e4}"));
}

#[test]
fn agrees_with_the_standard_search() {
    let hays = ["", "a", "ab", "aab", "abab", "xxabxx", "DEBUGGER: wait"];
    let needles = ["", "a", "b", "ab", "ba", "aab", "xx", "wait", "DEBUGGER: wait for"];
    for hay in hays.iter() {
        for needle in needles.iter() {
            assert_eq!(contains(hay, needle), hay.contains(needle));
        }
    }
}
