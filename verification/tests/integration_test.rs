use aiboard::cli::args::{CleanupAction, HookAction, MessageAction, ThreadAction};
use aiboard::cli::handler::{
    backup_wanted, classify_error, handle_cleanup, handle_hook, handle_message, handle_thread,
    HandlerError, Output, Rendering,
};
use aiboard::domain::entity::{Message, Role, Thread};
use aiboard::domain::instant::now;
use aiboard::infra::backup::{backup_file_name, backup_stamp};
use aiboard::infra::schema::Database;
use aiboard::infra::sqlite::{SqliteMessageRepository, SqliteThreadRepository};
use aiboard::usecase::cleanup::CleanupUseCase;
use aiboard::usecase::hook::HookUseCase;
use aiboard::usecase::message::MessageUseCase;
use aiboard::usecase::setup::{generate_hooks_string, generate_skill_content};
use aiboard::usecase::thread::ThreadUseCase;

fn test_db() -> Database {
    Database::open_in_memory().unwrap()
}

fn run_thread(db: &Database, action: ThreadAction) -> Result<Output, HandlerError> {
    let conn = db.connection();
    let uc = ThreadUseCase::new(SqliteThreadRepository::new(conn), SqliteMessageRepository::new(conn));
    handle_thread(action, &uc, None)
}

fn run_message(
    db: &Database,
    action: MessageAction,
    input: Option<&str>,
) -> Result<Output, HandlerError> {
    let conn = db.connection();
    let message_uc = MessageUseCase::new(SqliteMessageRepository::new(conn));
    let thread_uc =
        ThreadUseCase::new(SqliteThreadRepository::new(conn), SqliteMessageRepository::new(conn));
    handle_message(action, &message_uc, &thread_uc, input.map(|s| s.to_string()))
}

fn run_hook(db: &Database, thread: Option<&str>, input: &str) -> Result<Output, HandlerError> {
    let conn = db.connection();
    let uc = HookUseCase::new(SqliteThreadRepository::new(conn), SqliteMessageRepository::new(conn));
    handle_hook(HookAction::Ingest { thread: thread.map(|s| s.to_string()) }, &uc, input, None)
}

fn run_cleanup(db: &Database, action: CleanupAction) -> Result<Output, HandlerError> {
    let conn = db.connection();
    let uc =
        CleanupUseCase::new(SqliteThreadRepository::new(conn), SqliteMessageRepository::new(conn));
    handle_cleanup(action, &uc)
}

fn stdout(output: &Output) -> String {
    match &output.shown {
        Some(Rendering::Text(t)) => t.clone(),
        _ => String::new(),
    }
}

fn messages_json(output: &Output) -> Vec<Message> {
    match &output.shown {
        Some(Rendering::MessagesJson(m)) => m.clone(),
        _ => panic!("the command did not answer with messages as JSON"),
    }
}

fn threads_json(output: &Output) -> Vec<Thread> {
    match &output.shown {
        Some(Rendering::ThreadsJson(t)) => t.clone(),
        _ => panic!("the command did not answer with threads as JSON"),
    }
}

fn create_thread(db: &Database, title: &str) -> String {
    let output = run_thread(db, ThreadAction::Create { title: title.to_string() }).unwrap();
    stdout(&output).trim().to_string()
}

fn post(thread: &str, content: Option<&str>) -> MessageAction {
    MessageAction::Post {
        thread: thread.to_string(),
        role: "user".to_string(),
        content: content.map(|s| s.to_string()),
        session: None,
        sender: None,
        parent: None,
        metadata: None,
    }
}

fn post_message(db: &Database, thread_id: &str, content: &str) -> String {
    let output = run_message(db, post(thread_id, Some(content)), None).unwrap();
    stdout(&output).trim().to_string()
}

fn read(thread: &str, format: &str) -> MessageAction {
    MessageAction::Read {
        thread: Some(thread.to_string()),
        limit: None,
        before: None,
        after: None,
        full: false,
        format: format.to_string(),
        sender: None,
    }
}

fn search(query: &str, thread: Option<&str>) -> MessageAction {
    MessageAction::Search {
        query: query.to_string(),
        thread: thread.map(|s| s.to_string()),
        full: false,
        format: "text".to_string(),
        sender: None,
    }
}

fn list_threads(format: &str) -> ThreadAction {
    ThreadAction::List { full: false, format: format.to_string(), status: "all".to_string() }
}

#[test]
fn thread_create_list_delete() {
    let db = test_db();
    let thread_id = create_thread(&db, "test-thread");
    assert!(!thread_id.is_empty());

    let listed = run_thread(&db, list_threads("text")).unwrap();
    assert!(stdout(&listed).contains("test-thread"));

    let as_json = run_thread(&db, list_threads("json")).unwrap();
    let threads = threads_json(&as_json);
    assert_eq!(threads.len(), 1);
    assert_eq!(threads[0].title, "test-thread");

    run_thread(&db, ThreadAction::Delete { id: thread_id.clone() }).unwrap();

    let listed = run_thread(&db, list_threads("text")).unwrap();
    assert!(stdout(&listed).trim().is_empty());
}

#[test]
fn message_post_read() {
    let db = test_db();
    let thread_id = create_thread(&db, "msg-test");

    let posted = run_message(
        &db,
        MessageAction::Post {
            thread: thread_id.clone(),
            role: "user".to_string(),
            content: Some("Hello, world!".to_string()),
            session: None,
            sender: Some("test-agent".to_string()),
            parent: None,
            metadata: None,
        },
        None,
    )
    .unwrap();
    let msg_id = stdout(&posted).trim().to_string();
    assert!(!msg_id.is_empty());

    let shown = run_message(&db, read(&thread_id, "text"), None).unwrap();
    assert!(stdout(&shown).contains("Hello, world!"));
    assert!(stdout(&shown).contains("test-agent"));

    let as_json = run_message(&db, read(&thread_id, "json"), None).unwrap();
    let messages = messages_json(&as_json);
    assert_eq!(messages[0].content, "Hello, world!");
}

#[test]
fn message_post_from_stdin() {
    let db = test_db();
    let thread_id = create_thread(&db, "stdin-test");

    run_message(&db, post(&thread_id, None), Some("message from stdin")).unwrap();

    let shown = run_message(&db, read(&thread_id, "text"), None).unwrap();
    assert!(stdout(&shown).contains("message from stdin"));
}

#[test]
fn message_search() {
    let db = test_db();
    let thread_id = create_thread(&db, "search-test");
    post_message(&db, &thread_id, "the quick brown fox");
    post_message(&db, &thread_id, "lazy dog sleeps");

    let fox = run_message(&db, search("fox", None), None).unwrap();
    assert!(stdout(&fox).contains("quick brown fox"));

    let dog = run_message(&db, search("dog", None), None).unwrap();
    assert!(stdout(&dog).contains("lazy dog"));
}

#[test]
fn message_update() {
    let db = test_db();
    let thread_id = create_thread(&db, "update-test");
    let msg_id = post_message(&db, &thread_id, "original content");

    let short_id = &msg_id[..8];
    let updated = run_message(
        &db,
        MessageAction::Update { id: short_id.to_string(), content: "updated content".to_string() },
        None,
    )
    .unwrap();
    assert!(stdout(&updated).contains(&msg_id));

    let shown = run_message(&db, read(&thread_id, "text"), None).unwrap();
    assert!(stdout(&shown).contains("updated content"));
}

#[test]
fn cleanup_by_session() {
    let db = test_db();
    let thread_id = create_thread(&db, "cleanup-test");
    run_message(
        &db,
        MessageAction::Post {
            thread: thread_id.clone(),
            role: "user".to_string(),
            content: Some("session message".to_string()),
            session: Some("sess-123".to_string()),
            sender: None,
            parent: None,
            metadata: None,
        },
        None,
    )
    .unwrap();

    run_cleanup(&db, CleanupAction::Session { id: "sess-123".to_string(), no_backup: false })
        .unwrap();

    let shown = run_message(&db, read(&thread_id, "text"), None).unwrap();
    assert!(!stdout(&shown).contains("session message"));
}

#[test]
fn hook_ingest() {
    let db = test_db();
    let thread_id = create_thread(&db, "hook-test");
    let json = "{\"hook_event_name\":\"UserPromptSubmit\",\"prompt\":\"hello from hook\",\"session_id\":\"hook-session-1\"}";

    run_hook(&db, Some(&thread_id), json).unwrap();

    let shown = run_message(&db, read(&thread_id, "text"), None).unwrap();
    assert!(stdout(&shown).contains("hello from hook"));
}

#[test]
fn invalid_role_rejected() {
    let db = test_db();
    let thread_id = create_thread(&db, "invalid-role");
    let result = run_message(
        &db,
        MessageAction::Post {
            thread: thread_id,
            role: "invalid_role".to_string(),
            content: Some("test".to_string()),
            session: None,
            sender: None,
            parent: None,
            metadata: None,
        },
        None,
    );
    assert!(result.is_err());
}

#[test]
fn cleanup_age_zero() {
    let db = test_db();
    let thread_id = create_thread(&db, "age-cleanup-test");
    post_message(&db, &thread_id, "old message");

    let result = run_cleanup(&db, CleanupAction::Age { days: 0, no_backup: false });
    assert!(result.is_ok());
}

#[test]
fn invalid_metadata_json_rejected() {
    let db = test_db();
    let thread_id = create_thread(&db, "meta-test");
    let result = run_message(
        &db,
        MessageAction::Post {
            thread: thread_id,
            role: "user".to_string(),
            content: Some("test".to_string()),
            session: None,
            sender: None,
            parent: None,
            metadata: Some("not valid json{{{".to_string()),
        },
        None,
    );
    assert!(result.is_err());
}

#[test]
fn nonexistent_thread_read() {
    let db = test_db();
    let result = run_message(&db, read("nonexistent-thread-id", "text"), None);
    assert!(result.is_err());
}

#[test]
fn nonexistent_thread_delete() {
    let db = test_db();
    let result = run_thread(&db, ThreadAction::Delete { id: "nonexistent-thread-id".to_string() });
    assert!(result.is_err());
}

#[test]
fn thread_list_json_is_valid_json() {
    let db = test_db();
    create_thread(&db, "json-test-1");
    create_thread(&db, "json-test-2");

    let output = run_thread(&db, list_threads("json")).unwrap();
    let arr = threads_json(&output);
    assert_eq!(arr.len(), 2);
}

#[test]
fn message_read_json_is_valid_json() {
    let db = test_db();
    let thread_id = create_thread(&db, "json-msg-test");
    post_message(&db, &thread_id, "json test message");

    let output = run_message(&db, read(&thread_id, "json"), None).unwrap();
    let arr = messages_json(&output);
    assert_eq!(arr.len(), 1);
    assert_eq!(arr[0].content, "json test message");
}

#[test]
fn message_post_with_valid_metadata() {
    let db = test_db();
    let thread_id = create_thread(&db, "valid-meta-test");
    run_message(
        &db,
        MessageAction::Post {
            thread: thread_id.clone(),
            role: "user".to_string(),
            content: Some("with metadata".to_string()),
            session: None,
            sender: None,
            parent: None,
            metadata: Some(r#"{"key": "value", "num": 42}"#.to_string()),
        },
        None,
    )
    .unwrap();

    let output = run_message(&db, read(&thread_id, "json"), None).unwrap();
    let msg = &messages_json(&output)[0];
    let metadata: serde_json::Value =
        serde_json::from_str(msg.metadata.as_ref().unwrap()).unwrap();
    assert_eq!(metadata["key"], "value");
    assert_eq!(metadata["num"], 42);
}

#[test]
fn setup_hooks_generates_json() {
    let text = generate_hooks_string();
    let parsed: serde_json::Value = serde_json::from_str(&text).unwrap();
    let hooks = parsed.get("hooks").unwrap();

    for event in &["UserPromptSubmit", "PostToolUse", "Stop"] {
        let event_arr = hooks.get(*event).unwrap().as_array().unwrap();
        assert!(!event_arr.is_empty());

        let entry = &event_arr[0];
        assert!(entry.get("matcher").is_some());

        let inner_hooks = entry.get("hooks").unwrap().as_array().unwrap();
        assert!(!inner_hooks.is_empty());

        let hook_def = &inner_hooks[0];
        assert_eq!(hook_def.get("type").and_then(|v| v.as_str()), Some("command"));
        assert_eq!(hook_def.get("async").and_then(|v| v.as_bool()), Some(true));

        let command = hook_def.get("command").and_then(|v| v.as_str()).unwrap();
        assert!(command.contains("aiboard hook ingest"));
        assert!(!command.contains("--thread"));
    }
}

#[test]
fn setup_skill_generates_markdown() {
    let text = generate_skill_content();
    assert!(text.contains("aiboard"));
    assert!(text.contains("message post"));
}

#[test]
fn nul_byte_in_content_rejected() {
    let db = test_db();
    let thread_id = create_thread(&db, "nul-test");
    let result = run_message(&db, post(&thread_id, None), Some("hello\0world"));
    let error = result.unwrap_err();
    let (code, message) = classify_error(&error);
    assert_eq!(code, 1);
    assert!(message.contains("NUL"));
}

#[test]
fn fts5_special_chars_handled() {
    let db = test_db();
    let thread_id = create_thread(&db, "fts5-special");
    post_message(&db, &thread_id, "normal content here");

    assert!(run_message(&db, search("content*", None), None).is_ok());
    assert!(run_message(&db, search(r#""quoted phrase""#, None), None).is_ok());
}

#[test]
fn search_with_sql_wildcards() {
    let db = test_db();
    let thread_id = create_thread(&db, "wildcard-test");
    post_message(&db, &thread_id, "100% complete");
    post_message(&db, &thread_id, "file_name.txt");

    let percent = run_message(&db, search("100%", Some(&thread_id)), None).unwrap();
    assert!(stdout(&percent).contains("100% complete"));

    let underscore = run_message(&db, search("file_name", Some(&thread_id)), None).unwrap();
    assert!(stdout(&underscore).contains("file_name.txt"));
}

#[test]
fn message_read_with_limit() {
    let db = test_db();
    let thread_id = create_thread(&db, "limit-test");
    post_message(&db, &thread_id, "message one");
    post_message(&db, &thread_id, "message two");
    post_message(&db, &thread_id, "message three");

    let output = run_message(
        &db,
        MessageAction::Read {
            thread: Some(thread_id),
            limit: Some(2),
            before: None,
            after: None,
            full: false,
            format: "json".to_string(),
            sender: None,
        },
        None,
    )
    .unwrap();
    let arr = messages_json(&output);
    assert_eq!(arr.len(), 2);
}

fn read_between(thread: &str, after: Option<&str>, before: Option<&str>) -> MessageAction {
    MessageAction::Read {
        thread: Some(thread.to_string()),
        limit: None,
        before: before.map(|s| s.to_string()),
        after: after.map(|s| s.to_string()),
        full: false,
        format: "json".to_string(),
        sender: None,
    }
}

#[test]
fn message_read_with_after_filter() {
    let db = test_db();
    let thread_id = create_thread(&db, "after-test");
    post_message(&db, &thread_id, "old message");

    let output =
        run_message(&db, read_between(&thread_id, Some("2000-01-01T00:00:00"), None), None).unwrap();
    assert_eq!(messages_json(&output).len(), 1);

    let output =
        run_message(&db, read_between(&thread_id, Some("2099-01-01T00:00:00"), None), None).unwrap();
    assert_eq!(messages_json(&output).len(), 0);
}

#[test]
fn message_read_with_before_filter() {
    let db = test_db();
    let thread_id = create_thread(&db, "before-test");
    post_message(&db, &thread_id, "recent message");

    let output =
        run_message(&db, read_between(&thread_id, None, Some("2099-01-01T00:00:00")), None).unwrap();
    assert_eq!(messages_json(&output).len(), 1);

    let output =
        run_message(&db, read_between(&thread_id, None, Some("2000-01-01T00:00:00")), None).unwrap();
    assert_eq!(messages_json(&output).len(), 0);
}

#[test]
fn cleanup_by_thread() {
    let db = test_db();
    let thread_id = create_thread(&db, "cleanup-thread-test");
    post_message(&db, &thread_id, "thread message 1");
    post_message(&db, &thread_id, "thread message 2");

    run_cleanup(&db, CleanupAction::Thread { id: thread_id.clone(), no_backup: false }).unwrap();

    assert!(run_thread(&db, ThreadAction::Delete { id: thread_id.clone() }).is_err());

    let conn = db.connection();
    let message_uc = MessageUseCase::new(SqliteMessageRepository::new(conn));
    assert!(message_uc.read(&thread_id).unwrap().is_empty());
    let thread_uc =
        ThreadUseCase::new(SqliteThreadRepository::new(conn), SqliteMessageRepository::new(conn));
    assert!(thread_uc.list().unwrap().is_empty());
}

#[test]
fn hook_ingest_invalid_json() {
    let db = test_db();
    let thread_id = create_thread(&db, "hook-invalid-json");
    let result = run_hook(&db, Some(&thread_id), "not valid json at all{{{");
    let error = result.unwrap_err();
    assert_eq!(classify_error(&error).0, 2);
}

#[test]
fn hook_ingest_unknown_event() {
    let db = test_db();
    let thread_id = create_thread(&db, "hook-unknown-event");
    let json = "{\"hook_event_name\":\"SomeNewEvent\",\"session_id\":\"test-session\"}";

    run_hook(&db, Some(&thread_id), json).unwrap();

    let shown = run_message(&db, read(&thread_id, "text"), None).unwrap();
    assert!(stdout(&shown).contains("SomeNewEvent"));
}

#[test]
fn hook_ingest_empty_prompt() {
    let db = test_db();
    let thread_id = create_thread(&db, "hook-empty-prompt");
    let json =
        "{\"hook_event_name\":\"UserPromptSubmit\",\"prompt\":\"\",\"session_id\":\"test-session\"}";

    let output = run_hook(&db, Some(&thread_id), json).unwrap();
    assert!(output.notes[0].contains("0 件"));
}

#[test]
fn hook_ingest_user_prompt_submit() {
    let db = test_db();
    let thread_id = create_thread(&db, "hook-user-prompt");
    let json = "{\"cwd\":\"/tmp\",\"hook_event_name\":\"UserPromptSubmit\",\"prompt\":\"please fix the bug\",\"session_id\":\"sess-prompt\",\"transcript_path\":\"/tmp/test\"}";

    run_hook(&db, Some(&thread_id), json).unwrap();

    let output = run_message(&db, read(&thread_id, "json"), None).unwrap();
    let arr = messages_json(&output);
    assert_eq!(arr.len(), 1);
    assert_eq!(arr[0].role, Role::User);
    assert_eq!(arr[0].role.to_string(), "user");
    assert_eq!(arr[0].content, "please fix the bug");
}

#[test]
fn hook_ingest_post_tool_use_skipped() {
    let db = test_db();
    let thread_id = create_thread(&db, "hook-post-tool");
    let json = "{\"cwd\":\"/tmp\",\"hook_event_name\":\"PostToolUse\",\"session_id\":\"sess-tool\",\"tool_input\":{\"command\":\"ls -la\"},\"tool_name\":\"Bash\",\"tool_response\":\"total 42\\ndrwxr-xr-x ...\",\"tool_use_id\":\"tool-123\",\"transcript_path\":\"/tmp/test\"}";

    let output = run_hook(&db, Some(&thread_id), json).unwrap();
    assert!(output.notes.iter().any(|n| n.contains("0 件")));

    let output = run_message(&db, read(&thread_id, "json"), None).unwrap();
    assert_eq!(messages_json(&output).len(), 0);
}

#[test]
fn hook_ingest_stop() {
    let db = test_db();
    let thread_id = create_thread(&db, "hook-stop");
    let json = "{\"cwd\":\"/tmp\",\"hook_event_name\":\"Stop\",\"session_id\":\"sess-stop\",\"transcript_path\":\"/tmp/test\"}";

    run_hook(&db, Some(&thread_id), json).unwrap();

    let output = run_message(&db, read(&thread_id, "json"), None).unwrap();
    let arr = messages_json(&output);
    assert_eq!(arr.len(), 1);
    assert_eq!(arr[0].role.to_string(), "assistant");
    assert_eq!(arr[0].content, "[session stop]");
}

#[test]
fn hook_ingest_no_session_no_thread() {
    let db = test_db();
    let json = "{\"hook_event_name\":\"UserPromptSubmit\",\"prompt\":\"orphan prompt\"}";
    assert!(run_hook(&db, None, json).is_err());
}

#[test]
fn update_nonexistent_message() {
    let db = test_db();
    let result = run_message(
        &db,
        MessageAction::Update { id: "nonexistent-id".to_string(), content: "new content".to_string() },
        None,
    );
    assert!(result.is_err());
}

#[test]
fn search_scoped_to_thread() {
    let db = test_db();
    let thread_a = create_thread(&db, "search-scope-a");
    let thread_b = create_thread(&db, "search-scope-b");
    post_message(&db, &thread_a, "unique_content_alpha");
    post_message(&db, &thread_b, "unique_content_beta");

    let scoped = run_message(&db, search("unique_content", Some(&thread_a)), None).unwrap();
    assert!(stdout(&scoped).contains("alpha"));
    assert!(!stdout(&scoped).contains("beta"));

    let global = run_message(&db, search("unique_content", None), None).unwrap();
    assert!(stdout(&global).contains("alpha"));
    assert!(stdout(&global).contains("beta"));
}

#[test]
fn message_post_all_roles() {
    let db = test_db();
    let thread_id = create_thread(&db, "all-roles-test");

    for role in &["user", "assistant", "system", "tool"] {
        run_message(
            &db,
            MessageAction::Post {
                thread: thread_id.clone(),
                role: role.to_string(),
                content: Some(format!("{} message", role)),
                session: None,
                sender: None,
                parent: None,
                metadata: None,
            },
            None,
        )
        .unwrap();
    }

    let output = run_message(&db, read(&thread_id, "json"), None).unwrap();
    assert_eq!(messages_json(&output).len(), 4);
}

#[test]
fn cleanup_age_creates_backup_by_default() {
    let db = test_db();
    let thread_id = create_thread(&db, "backup-age-test");
    post_message(&db, &thread_id, "backup test message");

    let action = CleanupAction::Age { days: 0, no_backup: false };
    assert!(backup_wanted(&action));
    assert!(run_cleanup(&db, action).is_ok());
}

#[test]
fn cleanup_thread_creates_backup_by_default() {
    let db = test_db();
    let thread_id = create_thread(&db, "backup-thread-test");
    post_message(&db, &thread_id, "backup thread message");

    let action = CleanupAction::Thread { id: thread_id, no_backup: false };
    assert!(backup_wanted(&action));
    assert!(run_cleanup(&db, action).is_ok());
}

#[test]
fn cleanup_session_creates_backup_by_default() {
    let db = test_db();
    let thread_id = create_thread(&db, "backup-session-test");
    run_message(
        &db,
        MessageAction::Post {
            thread: thread_id,
            role: "user".to_string(),
            content: Some("backup session message".to_string()),
            session: Some("sess-backup".to_string()),
            sender: None,
            parent: None,
            metadata: None,
        },
        None,
    )
    .unwrap();

    let action = CleanupAction::Session { id: "sess-backup".to_string(), no_backup: false };
    assert!(backup_wanted(&action));
    assert!(run_cleanup(&db, action).is_ok());
}

#[test]
fn cleanup_age_no_backup_skips_backup() {
    let db = test_db();
    let thread_id = create_thread(&db, "no-backup-age-test");
    post_message(&db, &thread_id, "no backup message");

    let action = CleanupAction::Age { days: 0, no_backup: true };
    assert!(!backup_wanted(&action));
    assert!(run_cleanup(&db, action).is_ok());
}

#[test]
fn cleanup_thread_no_backup_skips_backup() {
    let db = test_db();
    let thread_id = create_thread(&db, "no-backup-thread-test");
    post_message(&db, &thread_id, "no backup thread message");

    let action = CleanupAction::Thread { id: thread_id, no_backup: true };
    assert!(!backup_wanted(&action));
    assert!(run_cleanup(&db, action).is_ok());
}

#[test]
fn cleanup_session_no_backup_skips_backup() {
    let db = test_db();
    let thread_id = create_thread(&db, "no-backup-session-test");
    run_message(
        &db,
        MessageAction::Post {
            thread: thread_id,
            role: "user".to_string(),
            content: Some("no backup session message".to_string()),
            session: Some("sess-no-backup".to_string()),
            sender: None,
            parent: None,
            metadata: None,
        },
        None,
    )
    .unwrap();

    let action = CleanupAction::Session { id: "sess-no-backup".to_string(), no_backup: true };
    assert!(!backup_wanted(&action));
    assert!(run_cleanup(&db, action).is_ok());
}

#[test]
fn backup_file_naming_format() {
    let stamp = backup_stamp(&now()).unwrap();
    let name = backup_file_name(Some("aiboard.db"), &stamp);
    assert!(name.starts_with("aiboard.db.bak."));
    let timestamp_part = &name["aiboard.db.bak.".len()..];
    assert_eq!(timestamp_part.len(), 14);
    assert!(timestamp_part.chars().all(|c| c.is_ascii_digit()));
    assert_eq!(backup_file_name(None, "20240102030405"), "aiboard.db.bak.20240102030405");
}
