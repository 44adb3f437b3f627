use aiboard::domain::entity::{Role, ThreadStatus};
use aiboard::domain::error::DomainError;
use aiboard::domain::json::parse_json;
use aiboard::domain::repository::{MessageRepository, ThreadRepository};
use aiboard::infra::schema::Database;
use aiboard::infra::sqlite::{SqliteMessageRepository, SqliteThreadRepository};
use aiboard::usecase::hook::{
    draft_for, extract_text_content, last_assistant_reply, parse_ask_user_question,
    text_of_block, transcript_entries, transcript_path, Draft, HookUseCase, IngestOutcome,
    MAIN_SENDER,
};

fn draft(role: Role, content: &str, sender: Option<&str>, source: &str) -> Option<Draft> {
    Some(Draft {
        role,
        content: content.to_string(),
        sender: sender.map(|s| s.to_string()),
        source: source.to_string(),
    })
}

#[test]
fn a_block_of_type_text_holds_its_text() {
    let block = parse_json("{\"type\":\"text\",\"text\":\"hello\"}").unwrap();
    assert_eq!(text_of_block(&block), Some("hello"));
    let block = parse_json("{\"type\":\"tool_use\",\"text\":\"hello\"}").unwrap();
    assert_eq!(text_of_block(&block), None);
    let block = parse_json("{\"type\":\"text\",\"text\":7}").unwrap();
    assert_eq!(text_of_block(&block), None);
    let block = parse_json("[\"text\"]").unwrap();
    assert_eq!(text_of_block(&block), None);
}

#[test]
fn the_text_of_an_entry_is_its_string_or_its_text_blocks() {
    let entry = parse_json("{\"content\":\"hello\"}").unwrap();
    assert_eq!(extract_text_content(&entry), Some("hello".to_string()));
    let entry = parse_json("{\"content\":\"\"}").unwrap();
    assert_eq!(extract_text_content(&entry), None);
    let entry = parse_json(
        "{\"content\":[{\"type\":\"text\",\"text\":\"one\"},{\"type\":\"image\"},{\"type\":\"text\",\"text\":\"two\"}]}",
    )
    .unwrap();
    assert_eq!(extract_text_content(&entry), Some("one\ntwo".to_string()));
    let entry = parse_json("{\"content\":[{\"type\":\"image\"}]}").unwrap();
    assert_eq!(extract_text_content(&entry), None);
    let entry = parse_json("{\"content\":[]}").unwrap();
    assert_eq!(extract_text_content(&entry), None);
    let entry = parse_json("{\"content\":42}").unwrap();
    assert_eq!(extract_text_content(&entry), None);
    let entry = parse_json("{\"other\":\"x\"}").unwrap();
    assert_eq!(extract_text_content(&entry), None);
}

#[test]
fn the_last_reply_of_the_assistant_is_found() {
    let transcript = "{\"role\":\"user\",\"content\":\"question\"}\n{\"role\":\"assistant\",\"content\":\"first\"}\nnot json\n{\"role\":\"assistant\",\"content\":[{\"type\":\"text\",\"text\":\"second\"}]}\n{\"role\":\"assistant\",\"content\":\"\"}\n{\"role\":\"user\",\"content\":\"thanks\"}\n";
    let entries = transcript_entries(transcript);
    assert_eq!(entries.len(), 5);
    assert_eq!(last_assistant_reply(&entries), Some("second".to_string()));
    assert_eq!(last_assistant_reply(&transcript_entries("")), None);
    assert_eq!(
        last_assistant_reply(&transcript_entries("{\"role\":\"user\",\"content\":\"q\"}")),
        None
    );
    assert_eq!(
        last_assistant_reply(&transcript_entries("{\"role\":\"assistant\",\"content\":\"a\"}\r\n")),
        Some("a".to_string())
    );
}

#[test]
fn answers_are_quoted_on_one_line() {
    let response =
        parse_json("{\"answers\":{\"Which db?\":\"sqlite\",\"How many?\":3}}").unwrap();
    assert_eq!(
        parse_ask_user_question(&response),
        Some("[決定] Q: How many? / A: 3 | Q: Which db? / A: sqlite".to_string())
    );
    let response = parse_json("{\"answers\":{\"q\":{\"a\":[1,\"x\"]}}}").unwrap();
    assert_eq!(
        parse_ask_user_question(&response),
        Some("[決定] Q: q / A: {\"a\":[1,\"x\"]}".to_string())
    );
    assert_eq!(parse_ask_user_question(&parse_json("{\"answers\":{}}").unwrap()), None);
    assert_eq!(parse_ask_user_question(&parse_json("{\"answers\":[1]}").unwrap()), None);
    assert_eq!(parse_ask_user_question(&parse_json("{}").unwrap()), None);
}

#[test]
fn each_event_has_its_draft() {
    let event = parse_json("{\"hook_event_name\":\"UserPromptSubmit\",\"prompt\":\"hi\"}").unwrap();
    assert_eq!(draft_for(&event, None), draft(Role::User, "hi", None, "user"));

    let event = parse_json("{\"hook_event_name\":\"UserPromptSubmit\"}").unwrap();
    assert_eq!(draft_for(&event, None), None);

    let event = parse_json("{\"hook_event_name\":\"PostToolUse\",\"tool_name\":\"Bash\"}").unwrap();
    assert_eq!(draft_for(&event, None), None);

    let event = parse_json(
        "{\"hook_event_name\":\"PostToolUse\",\"tool_name\":\"AskUserQuestion\",\"tool_response\":{\"answers\":{\"q\":\"a\"}}}",
    )
    .unwrap();
    assert_eq!(draft_for(&event, None), draft(Role::User, "[決定] Q: q / A: a", None, "user"));

    let event = parse_json(
        "{\"hook_event_name\":\"PostToolUse\",\"tool_name\":\"AskUserQuestion\",\"tool_response\":\"{\\\"answers\\\":{\\\"q\\\":\\\"a\\\"}}\"}",
    )
    .unwrap();
    assert_eq!(draft_for(&event, None), draft(Role::User, "[決定] Q: q / A: a", None, "user"));

    let event = parse_json(
        "{\"hook_event_name\":\"PostToolUse\",\"tool_name\":\"AskUserQuestion\",\"tool_response\":\"not json\"}",
    )
    .unwrap();
    assert_eq!(draft_for(&event, None), None);

    let event = parse_json("{\"hook_event_name\":\"Stop\"}").unwrap();
    assert_eq!(
        draft_for(&event, Some("done".to_string())),
        draft(Role::Assistant, "done", Some(MAIN_SENDER), "agent")
    );
    assert_eq!(draft_for(&event, None), draft(Role::Assistant, "[session stop]", None, "system"));

    let event =
        parse_json("{\"hook_event_name\":\"SubagentStop\",\"agent_type\":\"explorer\"}").unwrap();
    assert_eq!(
        draft_for(&event, Some("found it".to_string())),
        draft(Role::Assistant, "found it", Some("subagent:explorer"), "agent")
    );
    assert_eq!(
        draft_for(&event, None),
        draft(Role::System, "[SubagentStop] event received", None, "system")
    );
    let event = parse_json("{\"hook_event_name\":\"SubagentStop\"}").unwrap();
    assert_eq!(
        draft_for(&event, Some("x".to_string())),
        draft(Role::Assistant, "x", Some("subagent:unknown"), "agent")
    );

    let event = parse_json("{\"hook_event_name\":\"Notification\"}").unwrap();
    assert_eq!(
        draft_for(&event, None),
        draft(Role::System, "[Notification] event received", None, "system")
    );
    let event = parse_json("{}").unwrap();
    assert_eq!(draft_for(&event, None), draft(Role::System, "[Unknown] event received", None, "system"));
}

#[test]
fn only_the_ends_of_replies_name_a_transcript() {
    let event = parse_json("{\"hook_event_name\":\"Stop\",\"transcript_path\":\"/tmp/t\",\"agent_transcript_path\":\"/tmp/a\"}").unwrap();
    assert_eq!(transcript_path(&event), Some("/tmp/t".to_string()));
    let event = parse_json("{\"hook_event_name\":\"SubagentStop\",\"transcript_path\":\"/tmp/t\",\"agent_transcript_path\":\"/tmp/a\"}").unwrap();
    assert_eq!(transcript_path(&event), Some("/tmp/a".to_string()));
    let event = parse_json("{\"hook_event_name\":\"UserPromptSubmit\",\"transcript_path\":\"/tmp/t\"}").unwrap();
    assert_eq!(transcript_path(&event), None);
    let event = parse_json("{\"hook_event_name\":\"Stop\"}").unwrap();
    assert_eq!(transcript_path(&event), None);
}

#[test]
fn an_event_is_stored_in_the_thread_of_its_session() {
    let db = Database::open_in_memory().unwrap();
    let conn = db.connection();
    let uc = HookUseCase::new(SqliteThreadRepository::new(conn), SqliteMessageRepository::new(conn));
    let threads = SqliteThreadRepository::new(conn);
    let messages = SqliteMessageRepository::new(conn);

    let event = "{\"session_id\":\"0123456789abcdef\",\"hook_event_name\":\"Stop\"}";
    let transcript = "{\"role\":\"assistant\",\"content\":\"all done\"}\n";
    assert_eq!(
        uc.ingest(None, event, Some(transcript)),
        Ok(IngestOutcome { stored: 1, thread_closed: false })
    );
    let thread = threads.find_by_id("0123456789abcdef").unwrap().unwrap();
    assert_eq!(thread.title, "Session 01234567");
    assert_eq!(thread.status, ThreadStatus::Open);
    let stored = messages.find_by_thread("0123456789abcdef").unwrap();
    assert_eq!(stored.len(), 1);
    assert_eq!(stored[0].role, Role::Assistant);
    assert_eq!(stored[0].content, "all done");
    assert_eq!(stored[0].sender, Some(MAIN_SENDER.to_string()));
    assert_eq!(stored[0].source, Some("agent".to_string()));
    assert_eq!(stored[0].session_id, Some("0123456789abcdef".to_string()));

    threads.update_status("0123456789abcdef", ThreadStatus::Closed).unwrap();
    assert_eq!(
        uc.ingest(None, event, None),
        Ok(IngestOutcome { stored: 1, thread_closed: true })
    );
    assert_eq!(messages.find_by_thread("0123456789abcdef").unwrap().len(), 2);
    assert_eq!(threads.list().unwrap().len(), 1);
}

#[test]
fn an_event_that_cannot_be_placed_is_a_parse_error() {
    let db = Database::open_in_memory().unwrap();
    let conn = db.connection();
    let uc = HookUseCase::new(SqliteThreadRepository::new(conn), SqliteMessageRepository::new(conn));
    assert_eq!(
        uc.ingest(None, "{\"hook_event_name\":\"Stop\"}", None),
        Err(DomainError::Parse("no session_id and no --thread provided".to_string()))
    );
    match uc.ingest(Some("t"), "{", None) {
        Err(DomainError::Parse(text)) => assert!(text.starts_with("invalid JSON: ")),
        other => panic!("unexpected: {:?}", other),
    }
    assert_eq!(
        uc.ingest(Some("t"), "{\"hook_event_name\":\"PostToolUse\"}", None),
        Ok(IngestOutcome { stored: 0, thread_closed: false })
    );
    assert!(SqliteThreadRepository::new(conn).list().unwrap().is_empty());
}
