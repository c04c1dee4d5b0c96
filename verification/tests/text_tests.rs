use cppup::text::{chars_of, contains_text, i32_to_decimal, join, replace_char, text_eq, u64_to_decimal};

#[test]
fn decimal_of_unsigned_numbers() {
    assert_eq!(u64_to_decimal(0), "0");
    assert_eq!(u64_to_decimal(7), "7");
    assert_eq!(u64_to_decimal(10), "10");
    assert_eq!(u64_to_decimal(2024), "2024");
    assert_eq!(u64_to_decimal(u64::MAX), "18446744073709551615");
}

#[test]
fn decimal_of_signed_numbers() {
    assert_eq!(i32_to_decimal(0), "0");
    assert_eq!(i32_to_decimal(2024), "2024");
    assert_eq!(i32_to_decimal(-1), "-1");
    assert_eq!(i32_to_decimal(i32::MAX), "2147483647");
    assert_eq!(i32_to_decimal(i32::MIN), "-2147483648");
}

#[test]
fn join_puts_the_separator_between_neighbours() {
    let none: Vec<String> = Vec::new();
    assert_eq!(join(&none, ", "), "");
    assert_eq!(join(&vec!["a".to_string()], ", "), "a");
    assert_eq!(join(&vec!["a".to_string(), "b".to_string(), "c".to_string()], ", "), "a, b, c");
    assert_eq!(join(&vec!["".to_string(), "".to_string()], "-"), "-");
}

#[test]
fn replace_changes_every_occurrence() {
    assert_eq!(replace_char("my-awesome-project", '-', '_'), "my_awesome_project");
    assert_eq!(replace_char("---", '-', '_'), "___");
    assert_eq!(replace_char("", '-', '_'), "");
    assert_eq!(replace_char("h\u{e9}-llo", '-', '_'), "h\u{e9}_llo");
}

#[test]
fn characters_and_equality() {
    assert_eq!(chars_of("h\u{e9}y"), vec!['h', '\u{e9}', 'y']);
    assert!(chars_of("").is_empty());
    assert!(text_eq("abc", "abc"));
    assert!(!text_eq("abc", "abd"));
    assert!(!text_eq("abc", "ab"));
    assert!(contains_text(&["a", "b"], "b"));
    assert!(!contains_text(&["a", "b"], "c"));
    assert!(!contains_text(&[], "c"));
}
