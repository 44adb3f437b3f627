use aiboard::domain::error::DomainError;
use aiboard::domain::resolver::{keep_with_prefix, not_found, resolve_among, RecordKind};

fn ids(v: &[&str]) -> Vec<String> {
    v.iter().map(|s| s.to_string()).collect()
}

#[test]
fn one_match_resolves_to_it() {
    let r = resolve_among(ids(&["abc-1", "abd-2", "xyz-3"]), "abc", RecordKind::Thread);
    assert_eq!(r, Ok("abc-1".to_string()));
}

#[test]
fn two_matches_are_ambiguous_with_their_count() {
    let r = resolve_among(ids(&["abc-1", "abd-2", "xyz-3"]), "ab", RecordKind::Message);
    assert_eq!(r, Err(DomainError::AmbiguousShortId("ab".to_string(), 2)));
    let r = resolve_among(ids(&["a1", "a2", "a3"]), "", RecordKind::Message);
    assert_eq!(r, Err(DomainError::AmbiguousShortId("".to_string(), 3)));
}

#[test]
fn no_match_is_not_found_of_the_kind() {
    let r = resolve_among(ids(&["abc-1"]), "zz", RecordKind::Thread);
    assert_eq!(r, Err(DomainError::ThreadNotFound("zz".to_string())));
    let r = resolve_among(ids(&["abc-1"]), "zz", RecordKind::Message);
    assert_eq!(r, Err(DomainError::MessageNotFound("zz".to_string())));
    let r = resolve_among(Vec::new(), "", RecordKind::Message);
    assert_eq!(r, Err(DomainError::MessageNotFound("".to_string())));
}

#[test]
fn a_full_identifier_resolves_to_itself() {
    let r = resolve_among(ids(&["abc-1", "abd-2"]), "abc-1", RecordKind::Thread);
    assert_eq!(r, Ok("abc-1".to_string()));
}

#[test]
fn matching_is_case_sensitive_and_literal() {
    let r = resolve_among(ids(&["ABC-1", "abc-2"]), "abc", RecordKind::Thread);
    assert_eq!(r, Ok("abc-2".to_string()));
    let r = resolve_among(ids(&["abc-1"]), "a_c", RecordKind::Thread);
    assert_eq!(r, Err(DomainError::ThreadNotFound("a_c".to_string())));
    let r = resolve_among(ids(&["abc-1"]), "%", RecordKind::Thread);
    assert_eq!(r, Err(DomainError::ThreadNotFound("%".to_string())));
}

#[test]
fn kept_identifiers_stay_in_order() {
    assert_eq!(keep_with_prefix(ids(&["b1", "a1", "b2", "a2"]), "a"), ids(&["a1", "a2"]));
    assert_eq!(not_found(RecordKind::Thread, "x"), DomainError::ThreadNotFound("x".to_string()));
}
