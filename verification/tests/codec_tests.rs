use aiboard::domain::entity::{Message, Role, Thread, ThreadPhase, ThreadStatus};
use aiboard::domain::error::DomainError;
use aiboard::domain::instant::Timestamp;
use aiboard::infra::codec::{decode_message, decode_thread, encode_message, encode_thread};
use aiboard::infra::driver::SqlValue;

fn text(s: &str) -> SqlValue {
    SqlValue::Text(s.to_string())
}

fn some(s: &str) -> Option<String> {
    Some(s.to_string())
}

fn sample() -> Message {
    Message {
        id: "m-1".to_string(),
        thread_id: "t-1".to_string(),
        session_id: some("s-1"),
        sender: None,
        role: Role::Tool,
        content: "body".to_string(),
        metadata: some("{\"a\":1}"),
        parent_id: None,
        source: some("manual"),
        created_at: Timestamp { secs: 1_704_164_645, nanos: 999 },
        updated_at: Timestamp { secs: 1_704_164_646, nanos: 0 },
    }
}

#[test]
fn a_message_is_written_column_by_column() {
    assert_eq!(
        encode_message(&sample()),
        Ok(vec![
            text("m-1"),
            text("t-1"),
            text("s-1"),
            SqlValue::Null,
            text("tool"),
            text("body"),
            text("{\"a\":1}"),
            SqlValue::Null,
            text("manual"),
            text("2024-01-02 03:04:05"),
            text("2024-01-02 03:04:06"),
        ])
    );
}

#[test]
fn a_message_with_a_defect_is_not_written() {
    let mut m = sample();
    m.metadata = some("{a:1}");
    assert_eq!(
        encode_message(&m),
        Err(DomainError::InvalidInput("metadata is not valid JSON".to_string()))
    );
    let mut m = sample();
    m.updated_at = Timestamp { secs: i64::MIN, nanos: 0 };
    assert_eq!(
        encode_message(&m),
        Err(DomainError::InvalidInput("timestamp out of range".to_string()))
    );
}

fn row() -> Vec<Option<String>> {
    vec![
        some("m-1"),
        some("t-1"),
        some("s-1"),
        None,
        some("tool"),
        some("body"),
        some("{\"a\":1}"),
        None,
        some("manual"),
        some("2024-01-02 03:04:05"),
        some("2024-01-02T03:04:06"),
    ]
}

#[test]
fn a_row_is_read_as_a_message() {
    let mut expected = sample();
    expected.created_at.nanos = 0;
    assert_eq!(decode_message(row()), Ok(expected));
}

#[test]
fn an_unknown_role_reads_as_user_and_broken_metadata_as_none() {
    let mut r = row();
    r[4] = some("wizard");
    r[6] = some("{broken");
    let m = decode_message(r).unwrap();
    assert_eq!(m.role, Role::User);
    assert_eq!(m.metadata, None);
    let mut r = row();
    r[4] = some("ASSISTANT");
    assert_eq!(decode_message(r).unwrap().role, Role::Assistant);
}

#[test]
fn a_fraction_of_a_second_is_read() {
    let mut r = row();
    r[9] = some("2024-01-02T03:04:05.25");
    let m = decode_message(r).unwrap();
    assert_eq!(m.created_at, Timestamp { secs: 1_704_164_645, nanos: 250_000_000 });
}

#[test]
fn a_row_with_a_defect_is_a_store_error() {
    let mut r = row();
    r.pop();
    assert_eq!(
        decode_message(r),
        Err(DomainError::Database("unexpected number of columns".to_string()))
    );
    let mut r = row();
    r[5] = None;
    assert_eq!(
        decode_message(r),
        Err(DomainError::Database("required column is null".to_string()))
    );
    let mut r = row();
    r[10] = some("yesterday");
    assert_eq!(
        decode_message(r),
        Err(DomainError::Database("unreadable timestamp".to_string()))
    );
}

fn sample_thread() -> Thread {
    Thread {
        id: "t-1".to_string(),
        name: some("n"),
        title: "title".to_string(),
        source_url: None,
        status: ThreadStatus::Closed,
        phase: Some(ThreadPhase::Done),
        created_at: Timestamp { secs: 0, nanos: 0 },
        updated_at: Timestamp { secs: 86_400, nanos: 0 },
    }
}

#[test]
fn a_thread_is_written_and_read_back() {
    let params = encode_thread(&sample_thread()).unwrap();
    assert_eq!(
        params,
        vec![
            text("t-1"),
            text("n"),
            text("title"),
            SqlValue::Null,
            text("closed"),
            text("done"),
            text("1970-01-01 00:00:00"),
            text("1970-01-02 00:00:00"),
        ]
    );
    let row: Vec<Option<String>> = params
        .into_iter()
        .map(|p| match p {
            SqlValue::Text(s) => Some(s),
            _ => None,
        })
        .collect();
    assert_eq!(decode_thread(row), Ok(sample_thread()));
}

#[test]
fn a_thread_row_without_status_reads_as_open() {
    let row = vec![
        some("t-1"),
        None,
        some("title"),
        None,
        None,
        some("bogus"),
        some("1970-01-01 00:00:00"),
        some("1970-01-01 00:00:00"),
    ];
    let t = decode_thread(row).unwrap();
    assert_eq!(t.status, ThreadStatus::Open);
    assert_eq!(t.phase, None);
    assert_eq!(
        decode_thread(vec![None]),
        Err(DomainError::Database("unexpected number of columns".to_string()))
    );
}

#[test]
fn what_is_written_for_a_message_reads_back() {
    let m = sample();
    let row: Vec<Option<String>> = encode_message(&m)
        .unwrap()
        .into_iter()
        .map(|p| match p {
            SqlValue::Text(s) => Some(s),
            _ => None,
        })
        .collect();
    let back = decode_message(row).unwrap();
    assert_eq!(back.content, m.content);
    assert_eq!(back.role, m.role);
    assert_eq!(back.metadata, m.metadata);
    assert_eq!(back.sender, m.sender);
    assert_eq!(back.created_at.secs, m.created_at.secs);
}
