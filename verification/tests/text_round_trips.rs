use lms::text::{read_string, str_contains, u64_to_dec};

#[test]
fn decimal_rendering_exact_values() {
    assert_eq!(u64_to_dec(0), "0");
    assert_eq!(u64_to_dec(7), "7");
    assert_eq!(u64_to_dec(10), "10");
    assert_eq!(u64_to_dec(409), "409");
    assert_eq!(u64_to_dec(u64::MAX), "18446744073709551615");
}

#[test]
fn substring_search_basics() {
    assert!(str_contains("Dune Messiah", "Mess"));
    assert!(str_contains("Dune", "Dune"));
    assert!(str_contains("Dune", ""));
    assert!(!str_contains("Dune", "dune"));
    assert!(!str_contains("ab", "abc"));
}

#[test]
fn read_string_decodes_escapes() {
    assert_eq!(read_string("plain"), "plain");
    assert_eq!(read_string("a\\nb"), "a\nb");
    assert_eq!(read_string("a\\tb"), "a\tb");
    assert_eq!(read_string("a\\rb"), "a\rb");
    assert_eq!(read_string("a\\\\b"), "a\\b");
}

#[test]
fn read_string_passes_replace_in_fixed_order() {
    // The newline pass runs before the backslash pass, so a backslash
    // followed by the two characters `\n` yields a backslash and a
    // newline, as sequential replacement does.
    assert_eq!(read_string("\\\\n"), "\\\n");
    assert_eq!(read_string("\\\\\\n"), "\\\n");
    assert_eq!(read_string("\\\\\\\\"), "\\\\");
}
