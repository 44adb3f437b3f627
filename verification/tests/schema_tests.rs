use aiboard::domain::entity::{Message, Role, ThreadStatus};
use aiboard::domain::error::DomainError;
use aiboard::domain::instant::Timestamp;
use aiboard::domain::repository::{MessageRepository, ThreadRepository};
use aiboard::infra::schema::{
    migration_sql, pending_versions, schema_version, Database, LATEST_VERSION, MIGRATION_V1,
    MIGRATION_V2,
};
use aiboard::infra::sqlite::{SqliteMessageRepository, SqliteThreadRepository};

#[test]
fn pending_versions_are_those_above_the_current_one() {
    assert_eq!(pending_versions(0), vec![1, 2]);
    assert_eq!(pending_versions(1), vec![2]);
    assert_eq!(pending_versions(2), Vec::<i64>::new());
    assert_eq!(pending_versions(3), Vec::<i64>::new());
    assert_eq!(pending_versions(-5), vec![1, 2]);
    assert_eq!(LATEST_VERSION, 2);
}

#[test]
fn version_is_zero_without_the_record_of_versions() {
    assert_eq!(schema_version(0, 7), 0);
    assert_eq!(schema_version(1, 7), 7);
    assert_eq!(schema_version(1, 0), 0);
}

#[test]
fn each_version_has_its_statements() {
    assert_eq!(migration_sql(1), MIGRATION_V1);
    assert_eq!(migration_sql(2), MIGRATION_V2);
}

#[test]
fn a_store_in_a_file_keeps_its_data_and_opens_again() {
    let dir = tempfile::tempdir().unwrap();
    let path = dir.path().join("aiboard.db");
    let path = path.to_str().unwrap();
    {
        let db = Database::open(path).unwrap();
        assert_eq!(db.current_version().unwrap(), 2);
        let repo = SqliteMessageRepository::new(db.connection());
        repo.insert(&Message {
            id: "m-1".to_string(),
            thread_id: "t-1".to_string(),
            session_id: None,
            sender: None,
            role: Role::Tool,
            content: "kept".to_string(),
            metadata: None,
            parent_id: None,
            source: None,
            created_at: Timestamp { secs: 10, nanos: 0 },
            updated_at: Timestamp { secs: 10, nanos: 0 },
        })
        .unwrap();
    }
    let db = Database::open(path).unwrap();
    assert_eq!(db.current_version().unwrap(), 2);
    let repo = SqliteMessageRepository::new(db.connection());
    let found = repo.find_by_thread("t-1").unwrap();
    assert_eq!(found.len(), 1);
    assert_eq!(found[0].content, "kept");
    assert_eq!(found[0].role, Role::Tool);
}

#[test]
fn a_path_that_cannot_be_opened_is_a_store_error() {
    let dir = tempfile::tempdir().unwrap();
    let path = dir.path().join("missing").join("deeper").join("aiboard.db");
    match Database::open(path.to_str().unwrap()) {
        Err(DomainError::Database(text)) => assert!(text.starts_with("failed to open database: ")),
        _ => panic!("the store opened"),
    }
}

#[test]
fn an_older_store_is_brought_up_to_date() {
    let dir = tempfile::tempdir().unwrap();
    let path = dir.path().join("aiboard.db");
    {
        let conn = rusqlite::Connection::open(&path).unwrap();
        conn.execute_batch(MIGRATION_V1).unwrap();
        conn.execute(
            "INSERT INTO threads (id, title, created_at, updated_at) VALUES ('t-1', 'old', '2020-01-01 00:00:00', '2020-01-01 00:00:00')",
            [],
        )
        .unwrap();
        let version: i64 = conn
            .query_row("SELECT MAX(version) FROM schema_version", [], |row| row.get(0))
            .unwrap();
        assert_eq!(version, 1);
    }
    let db = Database::open(path.to_str().unwrap()).unwrap();
    assert_eq!(db.current_version().unwrap(), 2);
    let threads = SqliteThreadRepository::new(db.connection());
    let old = threads.find_by_id("t-1").unwrap().unwrap();
    assert_eq!(old.title, "old");
    assert_eq!(old.status, ThreadStatus::Open);
    assert_eq!(old.phase, None);
}

#[test]
fn a_step_that_fails_is_undone_and_fatal() {
    let dir = tempfile::tempdir().unwrap();
    let path = dir.path().join("aiboard.db");
    {
        let conn = rusqlite::Connection::open(&path).unwrap();
        conn.execute_batch(MIGRATION_V1).unwrap();
        conn.execute_batch("ALTER TABLE threads ADD COLUMN phase TEXT;").unwrap();
    }
    match Database::open(path.to_str().unwrap()) {
        Err(DomainError::Database(text)) => assert!(text.starts_with("migration v2 failed: ")),
        _ => panic!("the store opened"),
    }
    let conn = rusqlite::Connection::open(&path).unwrap();
    let version: i64 =
        conn.query_row("SELECT MAX(version) FROM schema_version", [], |row| row.get(0)).unwrap();
    assert_eq!(version, 1);
    let status_columns: i64 = conn
        .query_row(
            "SELECT COUNT(*) FROM pragma_table_info('threads') WHERE name = 'status'",
            [],
            |row| row.get(0),
        )
        .unwrap();
    assert_eq!(status_columns, 0);
}
