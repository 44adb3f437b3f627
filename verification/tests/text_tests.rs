use aiboard::domain::text::{
    chars_of, contains_chars, decimal, decimal_wide, find_from, has_prefix, join_with, joined,
    lower_ascii_char, matches_at, same_chars, same_text, same_text_ignoring_ascii_case,
    signed_decimal, slice_chars, split_on, string_of,
};

#[test]
fn chars_and_strings_convert_both_ways() {
    let v = chars_of("héllo…");
    assert_eq!(v, vec!['h', 'é', 'l', 'l', 'o', '…']);
    assert_eq!(string_of(&v), "héllo…");
    assert_eq!(chars_of(""), Vec::<char>::new());
    assert_eq!(string_of(&Vec::new()), "");
}

#[test]
fn texts_compare_exactly_and_without_case() {
    assert!(same_text("abc", "abc"));
    assert!(!same_text("abc", "abC"));
    assert!(!same_text("abc", "abcd"));
    assert!(same_chars(&chars_of("x"), &chars_of("x")));
    assert!(same_text_ignoring_ascii_case("User", "uSER"));
    assert!(!same_text_ignoring_ascii_case("user", "users"));
    assert!(!same_text_ignoring_ascii_case("É", "é"));
    assert_eq!(lower_ascii_char('Q'), 'q');
    assert_eq!(lower_ascii_char('q'), 'q');
    assert_eq!(lower_ascii_char('É'), 'É');
    assert_eq!(lower_ascii_char('['), '[');
}

#[test]
fn search_finds_the_first_occurrence() {
    let hay = chars_of("abcabcabc");
    let needle = chars_of("bca");
    assert_eq!(find_from(&hay, &needle, 0), Some(1));
    assert_eq!(find_from(&hay, &needle, 2), Some(4));
    assert_eq!(find_from(&hay, &needle, 5), None);
    assert_eq!(find_from(&hay, &chars_of(""), 9), Some(9));
    assert_eq!(find_from(&hay, &chars_of(""), 10), None);
    assert!(matches_at(&hay, &needle, 4));
    assert!(!matches_at(&hay, &needle, 7));
    assert!(contains_chars(&hay, &chars_of("cab")));
    assert!(!contains_chars(&hay, &chars_of("cb")));
    assert!(contains_chars(&chars_of(""), &chars_of("")));
}

#[test]
fn prefixes_are_case_sensitive() {
    assert!(has_prefix("abc-123", "abc"));
    assert!(has_prefix("abc", "abc"));
    assert!(has_prefix("abc", ""));
    assert!(!has_prefix("abc", "ABC"));
    assert!(!has_prefix("ab", "abc"));
}

#[test]
fn numbers_render_in_decimal() {
    assert_eq!(decimal(0), "0");
    assert_eq!(decimal(7), "7");
    assert_eq!(decimal(10), "10");
    assert_eq!(decimal(1_048_576), "1048576");
    assert_eq!(decimal_wide(18_446_744_073_709_551_615), "18446744073709551615");
    assert_eq!(signed_decimal(0), "0");
    assert_eq!(signed_decimal(-1), "-1");
    assert_eq!(signed_decimal(42), "42");
    assert_eq!(signed_decimal(i64::MIN), "-9223372036854775808");
    assert_eq!(signed_decimal(i64::MAX), "9223372036854775807");
}

#[test]
fn texts_join_and_split() {
    assert_eq!(joined("ab", "cd"), "abcd");
    let parts = vec!["a".to_string(), "b".to_string(), "".to_string(), "c".to_string()];
    assert_eq!(join_with(&parts, ", "), "a, b, , c");
    assert_eq!(join_with(&Vec::new(), ", "), "");
    assert_eq!(join_with(&vec!["only".to_string()], ", "), "only");
    assert_eq!(split_on("a\nb\n\nc", '\n'), vec!["a", "b", "", "c"]);
    assert_eq!(split_on("", '\n'), vec![""]);
    assert_eq!(split_on("a\n", '\n'), vec!["a", ""]);
    assert_eq!(split_on("\n", '\n'), vec!["", ""]);
    assert_eq!(slice_chars(&chars_of("abcdef"), 2, 4), vec!['c', 'd']);
    assert_eq!(slice_chars(&chars_of("abcdef"), 3, 3), Vec::<char>::new());
}
