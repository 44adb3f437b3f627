use aiboard::domain::pattern::{contains_pattern, escape_like, prefix_pattern};

#[test]
fn reserved_characters_are_escaped() {
    assert_eq!(escape_like("100%"), "100\\%");
    assert_eq!(escape_like("file_name"), "file\\_name");
    assert_eq!(escape_like("a\\b"), "a\\\\b");
    assert_eq!(escape_like("%_\\"), "\\%\\_\\\\");
}

#[test]
fn plain_text_is_its_own_escaped_form() {
    assert_eq!(escape_like("needle"), "needle");
    assert_eq!(escape_like(""), "");
    assert_eq!(escape_like("日本語 text"), "日本語 text");
}

#[test]
fn patterns_wrap_the_escaped_text() {
    assert_eq!(contains_pattern("100%"), "%100\\%%");
    assert_eq!(contains_pattern(""), "%%");
    assert_eq!(prefix_pattern("ab_"), "ab\\_%");
    assert_eq!(prefix_pattern(""), "%");
}
