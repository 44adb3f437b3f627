use aiboard::domain::entity::{Message, Role, ThreadStatus};
use aiboard::domain::error::DomainError;
use aiboard::domain::instant::Timestamp;
use aiboard::domain::resolver::RecordKind;
use aiboard::infra::batch::encode_batch;
use aiboard::infra::confirm::{
    change_outcome, decode_ids, listed_threads, mention_hits, message_with_id, recent_messages,
    resolved_id, search_hits, thread_messages, thread_with_id, SearchStrategy,
};
use aiboard::infra::driver::SqlValue;

fn some(s: &str) -> Option<String> {
    Some(s.to_string())
}

fn row(id: &str, thread: &str, content: &str, created: &str) -> Vec<Option<String>> {
    vec![
        some(id),
        some(thread),
        None,
        None,
        some("user"),
        some(content),
        None,
        None,
        None,
        some(created),
        some(created),
    ]
}

fn thread_row(id: &str, status: &str, updated: &str) -> Vec<Option<String>> {
    vec![
        some(id),
        None,
        some("title"),
        None,
        some(status),
        None,
        some("2024-01-01 00:00:00"),
        some(updated),
    ]
}

fn ids(messages: &[Message]) -> Vec<&str> {
    messages.iter().map(|m| m.id.as_str()).collect()
}

#[test]
fn rows_of_one_thread_are_confirmed_and_ordered() {
    let rows = vec![
        row("late", "t", "x", "2024-01-03 00:00:00"),
        row("stray", "u", "x", "2024-01-02 12:00:00"),
        row("early", "t", "x", "2024-01-01 00:00:00"),
        row("mid", "t", "x", "2024-01-02T00:00:00"),
    ];
    let found = thread_messages(rows, "t").unwrap();
    assert_eq!(ids(&found), vec!["early", "mid", "late"]);
    assert!(thread_messages(Vec::new(), "t").unwrap().is_empty());
}

#[test]
fn a_row_that_cannot_be_read_fails_the_query() {
    let mut bad = row("b", "t", "x", "2024-01-03 00:00:00");
    bad[0] = None;
    let rows = vec![row("a", "t", "x", "2024-01-03 00:00:00"), bad];
    assert_eq!(
        thread_messages(rows.clone(), "t"),
        Err(DomainError::Database("required column is null".to_string()))
    );
    assert!(recent_messages(rows.clone(), 5).is_err());
    assert!(search_hits(rows.clone(), SearchStrategy::Indexed, "x", None).is_err());
    assert!(mention_hits(rows.clone(), None, "x").is_err());
    assert!(message_with_id(rows, "a").is_err());
    assert!(listed_threads(vec![vec![None]], None).is_err());
    assert!(thread_with_id(vec![vec![None]], "t").is_err());
}

#[test]
fn recent_rows_are_ordered_and_limited() {
    let rows = vec![
        row("a", "t", "x", "2024-01-01 00:00:00"),
        row("c", "t", "x", "2024-01-03 00:00:00"),
        row("b", "u", "x", "2024-01-02 00:00:00"),
    ];
    assert_eq!(ids(&recent_messages(rows.clone(), 10).unwrap()), vec!["c", "b", "a"]);
    assert_eq!(ids(&recent_messages(rows.clone(), 2).unwrap()), vec!["c", "b"]);
    assert_eq!(ids(&recent_messages(rows, 0).unwrap()), Vec::<&str>::new());
}

#[test]
fn literal_hits_contain_the_query_and_indexed_hits_are_taken_as_they_are() {
    let rows = vec![
        row("a", "t", "Needle here", "2024-01-01 00:00:00"),
        row("b", "t", "needle here", "2024-01-02 00:00:00"),
        row("c", "u", "a needle", "2024-01-03 00:00:00"),
    ];
    let literal = search_hits(rows.clone(), SearchStrategy::Literal, "needle", None).unwrap();
    assert_eq!(ids(&literal), vec!["c", "b"]);
    let indexed = search_hits(rows.clone(), SearchStrategy::Indexed, "needle", None).unwrap();
    assert_eq!(ids(&indexed), vec!["c", "b", "a"]);
    let scoped = search_hits(rows, SearchStrategy::Indexed, "needle", Some("t")).unwrap();
    assert_eq!(ids(&scoped), vec!["b", "a"]);
}

#[test]
fn mention_hits_end_at_a_word_boundary() {
    let rows = vec![
        row("a", "t", "hi @alice!", "2024-01-01 00:00:00"),
        row("b", "t", "hi @alicex", "2024-01-02 00:00:00"),
        row("c", "u", "@alice", "2024-01-03 00:00:00"),
    ];
    assert_eq!(ids(&mention_hits(rows.clone(), None, "alice").unwrap()), vec!["c", "a"]);
    assert_eq!(ids(&mention_hits(rows, Some("t"), "alice").unwrap()), vec!["a"]);
}

#[test]
fn threads_are_confirmed_by_status_and_ordered_by_update() {
    let rows = vec![
        thread_row("a", "open", "2024-01-02 00:00:00"),
        thread_row("b", "closed", "2024-01-05 00:00:00"),
        thread_row("c", "open", "2024-01-03 00:00:00"),
    ];
    let all: Vec<String> =
        listed_threads(rows.clone(), None).unwrap().into_iter().map(|t| t.id).collect();
    assert_eq!(all, vec!["b", "c", "a"]);
    let open: Vec<String> = listed_threads(rows.clone(), Some(ThreadStatus::Open))
        .unwrap()
        .into_iter()
        .map(|t| t.id)
        .collect();
    assert_eq!(open, vec!["c", "a"]);
    assert_eq!(thread_with_id(rows.clone(), "c").unwrap().unwrap().id, "c");
    assert_eq!(thread_with_id(rows, "d").unwrap(), None);
}

#[test]
fn a_record_is_found_by_its_whole_identifier() {
    let rows = vec![
        row("ab", "t", "first", "2024-01-01 00:00:00"),
        row("a", "t", "second", "2024-01-01 00:00:00"),
        row("a", "t", "third", "2024-01-01 00:00:00"),
    ];
    assert_eq!(message_with_id(rows.clone(), "a").unwrap().unwrap().content, "second");
    assert_eq!(message_with_id(rows, "A").unwrap(), None);
}

#[test]
fn identifiers_are_read_from_rows_of_one_column() {
    assert_eq!(
        decode_ids(vec![vec![some("a")], vec![some("b")]]),
        Ok(vec!["a".to_string(), "b".to_string()])
    );
    assert_eq!(decode_ids(Vec::new()), Ok(Vec::new()));
    assert_eq!(
        decode_ids(vec![vec![some("a")], vec![None]]),
        Err(DomainError::Database("required column is null".to_string()))
    );
    assert_eq!(
        decode_ids(vec![vec![some("a"), some("b")]]),
        Err(DomainError::Database("unexpected number of columns".to_string()))
    );
    assert_eq!(
        resolved_id(vec![vec![some("abc")], vec![some("ABD")]], "ab", RecordKind::Message),
        Ok("abc".to_string())
    );
    assert_eq!(
        resolved_id(vec![vec![some("abc")], vec![some("abd")]], "ab", RecordKind::Message),
        Err(DomainError::AmbiguousShortId("ab".to_string(), 2))
    );
    assert_eq!(
        resolved_id(vec![Vec::new()], "ab", RecordKind::Thread),
        Err(DomainError::Database("unexpected number of columns".to_string()))
    );
}

#[test]
fn a_change_that_touched_nothing_found_nothing() {
    assert_eq!(change_outcome(1, RecordKind::Thread, "t"), Ok(()));
    assert_eq!(change_outcome(3, RecordKind::Message, "m"), Ok(()));
    assert_eq!(
        change_outcome(0, RecordKind::Thread, "t"),
        Err(DomainError::ThreadNotFound("t".to_string()))
    );
    assert_eq!(
        change_outcome(0, RecordKind::Message, "m"),
        Err(DomainError::MessageNotFound("m".to_string()))
    );
}

fn message(id: &str, metadata: Option<&str>) -> Message {
    Message {
        id: id.to_string(),
        thread_id: "t".to_string(),
        session_id: None,
        sender: None,
        role: Role::User,
        content: "c".to_string(),
        metadata: metadata.map(|s| s.to_string()),
        parent_id: None,
        source: None,
        created_at: Timestamp { secs: 0, nanos: 0 },
        updated_at: Timestamp { secs: 0, nanos: 0 },
    }
}

#[test]
fn a_batch_is_encoded_whole_or_not_at_all() {
    let encoded = encode_batch(&[message("a", None), message("b", Some("[]"))]).unwrap();
    assert_eq!(encoded.len(), 2);
    assert_eq!(encoded[0][0], SqlValue::Text("a".to_string()));
    assert_eq!(encoded[1][6], SqlValue::Text("[]".to_string()));
    assert_eq!(encoded[0][6], SqlValue::Null);
    assert_eq!(encode_batch(&[]), Ok(Vec::new()));
    assert_eq!(
        encode_batch(&[message("a", None), message("b", Some("[")), message("c", None)]),
        Err(DomainError::InvalidInput("metadata is not valid JSON".to_string()))
    );
}
