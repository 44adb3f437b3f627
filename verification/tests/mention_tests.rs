use aiboard::domain::entity::{Message, Role};
use aiboard::domain::instant::Timestamp;
use aiboard::domain::mention::{filter_mention_boundary, mention_pattern, mentions, token_chars};

fn message(id: &str, content: &str) -> Message {
    Message {
        id: id.to_string(),
        thread_id: "t".to_string(),
        session_id: None,
        sender: None,
        role: Role::User,
        content: content.to_string(),
        metadata: None,
        parent_id: None,
        source: None,
        created_at: Timestamp { secs: 0, nanos: 0 },
        updated_at: Timestamp { secs: 0, nanos: 0 },
    }
}

#[test]
fn mention_followed_by_punctuation_counts() {
    assert!(mentions("hi @alice!", "alice"));
    assert!(mentions("@alice, look", "alice"));
    assert!(mentions("(@alice)", "alice"));
    assert!(mentions("@alice @bob", "alice"));
}

#[test]
fn mention_followed_by_a_word_character_does_not_count() {
    assert!(!mentions("hi @alicex", "alice"));
    assert!(!mentions("hi @alice_bot", "alice"));
    assert!(!mentions("hi @alice2", "alice"));
    assert!(!mentions("hi @aliceé", "alice"));
}

#[test]
fn mention_at_the_end_counts() {
    assert!(mentions("hi @alice", "alice"));
    assert!(mentions("@alice", "alice"));
}

#[test]
fn a_later_mention_counts_after_a_false_start() {
    assert!(mentions("@alicex and @alice.", "alice"));
    assert!(!mentions("@alicex and @alice_", "alice"));
}

#[test]
fn mention_needs_the_at_sign_and_the_exact_name() {
    assert!(!mentions("hi alice", "alice"));
    assert!(!mentions("hi @Alice", "alice"));
    assert!(!mentions("", "alice"));
    assert!(mentions("mail@alice.example", "alice"));
}

#[test]
fn mention_of_the_empty_name_is_a_bare_at_sign() {
    assert!(mentions("a @ b", ""));
    assert!(!mentions("a @b", ""));
}

#[test]
fn filter_keeps_the_mentioning_messages_in_order() {
    let kept = filter_mention_boundary(
        vec![
            message("1", "hi @alice!"),
            message("2", "hi @alicex"),
            message("3", "bye @alice"),
            message("4", "nothing"),
        ],
        "alice",
    );
    let ids: Vec<&str> = kept.iter().map(|m| m.id.as_str()).collect();
    assert_eq!(ids, vec!["1", "3"]);
}

#[test]
fn mention_pattern_escapes_the_name() {
    assert_eq!(mention_pattern("alice"), "%@alice%");
    assert_eq!(mention_pattern("a_b"), "%@a\\_b%");
    assert_eq!(token_chars("al"), vec!['@', 'a', 'l']);
}
