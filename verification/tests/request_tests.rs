use aiboard::domain::entity::{Message, Role, Thread, ThreadPhase, ThreadStatus};
use aiboard::domain::error::DomainError;
use aiboard::domain::instant::Timestamp;
use aiboard::domain::resolver::RecordKind;
use aiboard::infra::confirm::SearchStrategy;
use aiboard::infra::driver::SqlValue;
use aiboard::infra::request::{
    candidates_request, delete_by_session_request, delete_by_thread_request,
    delete_older_request, delete_thread_request, insert_message_request, mentions_request,
    message_by_id_request, recent_request, search_request, thread_by_id_request,
    thread_messages_request, threads_request, update_content_request, update_phase_request,
    update_status_request, with_text, write_thread_request,
};
use aiboard::infra::statements::{
    DELETE_BY_SESSION_SQL, DELETE_BY_THREAD_SQL, DELETE_OLDER_SQL, DELETE_THREAD_SQL,
    INSERT_MESSAGE_SQL, INSERT_THREAD_SQL, LIKE_IN_THREAD_SQL, LIKE_SQL, MATCH_IN_THREAD_SQL,
    MATCH_SQL, MESSAGES_BY_THREAD_SQL, MESSAGE_BY_ID_SQL, MESSAGE_IDS_LIKE_SQL,
    RECENT_MESSAGES_SQL, THREADS_BY_STATUS_SQL, THREADS_SQL, THREAD_BY_ID_SQL,
    THREAD_IDS_LIKE_SQL, UPDATE_CONTENT_SQL, UPDATE_PHASE_SQL, UPDATE_STATUS_SQL,
    UPSERT_THREAD_SQL,
};

fn text(s: &str) -> SqlValue {
    SqlValue::Text(s.to_string())
}

#[test]
fn a_search_hands_the_query_or_its_pattern_to_the_store() {
    let r = search_request(SearchStrategy::Indexed, "100%", None);
    assert_eq!(r.sql, MATCH_SQL);
    assert_eq!(r.params, vec![text("100%")]);
    let r = search_request(SearchStrategy::Indexed, "fox", Some("t-1"));
    assert_eq!(r.sql, MATCH_IN_THREAD_SQL);
    assert_eq!(r.params, vec![text("fox"), text("t-1")]);
    let r = search_request(SearchStrategy::Literal, "100%", None);
    assert_eq!(r.sql, LIKE_SQL);
    assert_eq!(r.params, vec![text("%100\\%%")]);
    let r = search_request(SearchStrategy::Literal, "file_name", Some("t-1"));
    assert_eq!(r.sql, LIKE_IN_THREAD_SQL);
    assert_eq!(r.params, vec![text("%file\\_name%"), text("t-1")]);
}

#[test]
fn mentions_and_short_identifiers_are_asked_for_by_pattern() {
    let r = mentions_request(None, "alice");
    assert_eq!(r.sql, LIKE_SQL);
    assert_eq!(r.params, vec![text("%@alice%")]);
    let r = mentions_request(Some("t"), "a_b");
    assert_eq!(r.sql, LIKE_IN_THREAD_SQL);
    assert_eq!(r.params, vec![text("%@a\\_b%"), text("t")]);
    let r = candidates_request(RecordKind::Thread, "ab");
    assert_eq!(r.sql, THREAD_IDS_LIKE_SQL);
    assert_eq!(r.params, vec![text("ab%")]);
    let r = candidates_request(RecordKind::Message, "a%");
    assert_eq!(r.sql, MESSAGE_IDS_LIKE_SQL);
    assert_eq!(r.params, vec![text("a\\%%")]);
}

#[test]
fn reads_bind_what_they_look_for() {
    assert_eq!(with_text(THREADS_SQL, "x").params, vec![text("x")]);
    let r = thread_by_id_request("t");
    assert_eq!((r.sql, r.params), (THREAD_BY_ID_SQL, vec![text("t")]));
    let r = message_by_id_request("m");
    assert_eq!((r.sql, r.params), (MESSAGE_BY_ID_SQL, vec![text("m")]));
    let r = thread_messages_request("t");
    assert_eq!((r.sql, r.params), (MESSAGES_BY_THREAD_SQL, vec![text("t")]));
    let r = threads_request(None);
    assert_eq!((r.sql, r.params), (THREADS_SQL, Vec::new()));
    let r = threads_request(Some(ThreadStatus::Closed));
    assert_eq!((r.sql, r.params), (THREADS_BY_STATUS_SQL, vec![text("closed")]));
    let r = recent_request(20);
    assert_eq!((r.sql, r.params), (RECENT_MESSAGES_SQL, vec![SqlValue::Integer(20)]));
    let r = recent_request(usize::MAX);
    assert_eq!(r.params, vec![SqlValue::Integer(i64::MAX)]);
}

#[test]
fn changes_bind_their_values_in_order() {
    let r = update_status_request("t", ThreadStatus::Closed, "2024-01-02 03:04:05");
    assert_eq!(r.sql, UPDATE_STATUS_SQL);
    assert_eq!(r.params, vec![text("closed"), text("2024-01-02 03:04:05"), text("t")]);
    let r = update_phase_request("t", Some(ThreadPhase::Done), "S");
    assert_eq!((r.sql, r.params), (UPDATE_PHASE_SQL, vec![text("done"), text("S"), text("t")]));
    let r = update_phase_request("t", None, "S");
    assert_eq!(r.params, vec![SqlValue::Null, text("S"), text("t")]);
    let r = update_content_request("m", "new", "S");
    assert_eq!((r.sql, r.params), (UPDATE_CONTENT_SQL, vec![text("new"), text("S"), text("m")]));
    let r = delete_thread_request("t");
    assert_eq!((r.sql, r.params), (DELETE_THREAD_SQL, vec![text("t")]));
    let r = delete_by_thread_request("t");
    assert_eq!((r.sql, r.params), (DELETE_BY_THREAD_SQL, vec![text("t")]));
    let r = delete_by_session_request("s");
    assert_eq!((r.sql, r.params), (DELETE_BY_SESSION_SQL, vec![text("s")]));
    let r = delete_older_request(&Timestamp { secs: 86_400, nanos: 0 }).unwrap();
    assert_eq!((r.sql, r.params), (DELETE_OLDER_SQL, vec![text("1970-01-02 00:00:00")]));
    let r = delete_older_request(&Timestamp { secs: 86_400, nanos: 5 }).unwrap();
    assert_eq!((r.sql, r.params), (DELETE_OLDER_SQL, vec![text("1970-01-02 00:00:01")]));
    assert_eq!(
        delete_older_request(&Timestamp { secs: i64::MIN, nanos: 0 }),
        Err(DomainError::InvalidInput("timestamp out of range".to_string()))
    );
}

#[test]
fn writes_bind_the_record_or_name_its_defect() {
    let m = Message {
        id: "m".to_string(),
        thread_id: "t".to_string(),
        session_id: None,
        sender: None,
        role: Role::User,
        content: "c".to_string(),
        metadata: None,
        parent_id: None,
        source: None,
        created_at: Timestamp { secs: 0, nanos: 0 },
        updated_at: Timestamp { secs: 0, nanos: 0 },
    };
    let r = insert_message_request(&m).unwrap();
    assert_eq!(r.sql, INSERT_MESSAGE_SQL);
    assert_eq!(r.params.len(), 11);
    assert_eq!(r.params[4], text("user"));
    let t = Thread {
        id: "t".to_string(),
        name: None,
        title: "title".to_string(),
        source_url: None,
        status: ThreadStatus::Open,
        phase: None,
        created_at: Timestamp { secs: 10, nanos: 0 },
        updated_at: Timestamp { secs: 10, nanos: 0 },
    };
    assert_eq!(write_thread_request(&t, false).unwrap().sql, INSERT_THREAD_SQL);
    let r = write_thread_request(&t, true).unwrap();
    assert_eq!(r.sql, UPSERT_THREAD_SQL);
    assert_eq!(r.params.len(), 8);
    let mut backwards = t.duplicate();
    backwards.updated_at = Timestamp { secs: 9, nanos: 999_999_999 };
    assert_eq!(
        write_thread_request(&backwards, false),
        Err(DomainError::InvalidInput("thread is updated before it is created".to_string()))
    );
}
