use std::cell::RefCell;
use std::rc::Rc;

use aiboard::domain::entity::{Message, Thread, ThreadPhase, ThreadStatus};
use aiboard::domain::error::DomainError;
use aiboard::domain::instant::Timestamp;
use aiboard::domain::repository::{MessageRepository, ThreadRepository};
use aiboard::usecase::cleanup::CleanupUseCase;
use aiboard::usecase::message::MessageUseCase;
use aiboard::usecase::thread::{found_closed, ThreadUseCase};

type Calls = Rc<RefCell<Vec<String>>>;

fn note(calls: &Calls, call: String) {
    calls.borrow_mut().push(call);
}

fn made(calls: &Calls) -> Vec<String> {
    calls.borrow().clone()
}

/// A store of threads that notes what it is asked and answers as it was told to.
struct Threads {
    calls: Calls,
    resolved: Result<String, DomainError>,
    changed: Result<(), DomainError>,
}

impl ThreadRepository for Threads {
    fn create(&self, thread: &Thread) -> Result<(), DomainError> {
        note(&self.calls, format!("create {}", thread.title));
        self.changed.clone()
    }

    fn upsert(&self, thread: &Thread) -> Result<(), DomainError> {
        note(&self.calls, format!("upsert {}", thread.id));
        self.changed.clone()
    }

    fn find_by_id(&self, id: &str) -> Result<Option<Thread>, DomainError> {
        note(&self.calls, format!("find {}", id));
        Ok(None)
    }

    fn resolve_short_id(&self, short_id: &str) -> Result<String, DomainError> {
        note(&self.calls, format!("resolve {}", short_id));
        self.resolved.clone()
    }

    fn list(&self) -> Result<Vec<Thread>, DomainError> {
        note(&self.calls, "list".to_string());
        Ok(Vec::new())
    }

    fn list_by_status(&self, status: Option<ThreadStatus>) -> Result<Vec<Thread>, DomainError> {
        note(&self.calls, format!("list {:?}", status));
        Ok(Vec::new())
    }

    fn update_status(&self, id: &str, status: ThreadStatus) -> Result<(), DomainError> {
        note(&self.calls, format!("status {} {:?}", id, status));
        self.changed.clone()
    }

    fn update_phase(&self, id: &str, phase: Option<ThreadPhase>) -> Result<(), DomainError> {
        note(&self.calls, format!("phase {} {:?}", id, phase));
        self.changed.clone()
    }

    fn delete(&self, id: &str) -> Result<(), DomainError> {
        note(&self.calls, format!("delete thread {}", id));
        self.changed.clone()
    }
}

/// A store of messages that notes what it is asked and answers as it was told to.
struct Messages {
    calls: Calls,
    resolved: Result<String, DomainError>,
    changed: Result<(), DomainError>,
    deleted: Result<usize, DomainError>,
}

impl MessageRepository for Messages {
    fn insert(&self, message: &Message) -> Result<(), DomainError> {
        note(&self.calls, format!("insert into {}", message.thread_id));
        self.changed.clone()
    }

    fn insert_batch(&self, messages: &[Message]) -> Result<usize, DomainError> {
        note(&self.calls, format!("insert batch of {}", messages.len()));
        Ok(messages.len())
    }

    fn find_by_id(&self, id: &str) -> Result<Option<Message>, DomainError> {
        note(&self.calls, format!("find message {}", id));
        Ok(None)
    }

    fn resolve_short_id(&self, short_id: &str) -> Result<String, DomainError> {
        note(&self.calls, format!("resolve message {}", short_id));
        self.resolved.clone()
    }

    fn find_by_thread(&self, thread_id: &str) -> Result<Vec<Message>, DomainError> {
        note(&self.calls, format!("messages of {}", thread_id));
        Ok(Vec::new())
    }

    fn list_recent(&self, limit: usize) -> Result<Vec<Message>, DomainError> {
        note(&self.calls, format!("recent {}", limit));
        Ok(Vec::new())
    }

    fn search(&self, query: &str, thread_id: Option<&str>) -> Result<Vec<Message>, DomainError> {
        note(&self.calls, format!("search {} {:?}", query, thread_id));
        Ok(Vec::new())
    }

    fn update_content(&self, id: &str, content: &str) -> Result<(), DomainError> {
        note(&self.calls, format!("content {} {}", id, content));
        self.changed.clone()
    }

    fn delete_by_thread(&self, thread_id: &str) -> Result<usize, DomainError> {
        note(&self.calls, format!("delete messages of {}", thread_id));
        self.deleted.clone()
    }

    fn delete_by_session(&self, session_id: &str) -> Result<usize, DomainError> {
        note(&self.calls, format!("delete session {}", session_id));
        self.deleted.clone()
    }

    fn delete_older_than(&self, before: &Timestamp) -> Result<usize, DomainError> {
        note(&self.calls, format!("delete older than {} {}", before.secs, before.nanos));
        self.deleted.clone()
    }

    fn find_mentions(&self, thread_id: Option<&str>, target: &str) -> Result<Vec<Message>, DomainError> {
        note(&self.calls, format!("mentions {:?} {}", thread_id, target));
        Ok(Vec::new())
    }

    fn count_mentions(&self, thread_id: Option<&str>, target: &str) -> Result<usize, DomainError> {
        note(&self.calls, format!("count {:?} {}", thread_id, target));
        Ok(0)
    }
}

fn threads(calls: &Calls, resolved: Result<&str, DomainError>, changed: Result<(), DomainError>) -> Threads {
    Threads { calls: calls.clone(), resolved: resolved.map(|s| s.to_string()), changed }
}

fn messages(
    calls: &Calls,
    resolved: Result<&str, DomainError>,
    changed: Result<(), DomainError>,
    deleted: Result<usize, DomainError>,
) -> Messages {
    Messages { calls: calls.clone(), resolved: resolved.map(|s| s.to_string()), changed, deleted }
}

fn store_error() -> DomainError {
    DomainError::Database("disk full".to_string())
}

fn missing(id: &str) -> DomainError {
    DomainError::ThreadNotFound(id.to_string())
}

#[test]
fn cleanup_by_thread_asks_the_messages_first_and_answers_their_number() {
    let calls = Calls::default();
    let uc = CleanupUseCase::new(
        threads(&calls, Ok("t"), Ok(())),
        messages(&calls, Ok("m"), Ok(()), Ok(7)),
    );
    assert_eq!(uc.by_thread("t"), Ok(7));
    assert_eq!(made(&calls), vec!["delete messages of t", "delete thread t"]);
}

#[test]
fn cleanup_by_thread_answers_the_thread_stores_error_after_the_messages() {
    let calls = Calls::default();
    let uc = CleanupUseCase::new(
        threads(&calls, Ok("t"), Err(missing("t"))),
        messages(&calls, Ok("m"), Ok(()), Ok(7)),
    );
    assert_eq!(uc.by_thread("t"), Err(missing("t")));
    assert_eq!(made(&calls), vec!["delete messages of t", "delete thread t"]);
}

#[test]
fn cleanup_by_thread_leaves_the_thread_where_the_messages_fail() {
    let calls = Calls::default();
    let uc = CleanupUseCase::new(
        threads(&calls, Ok("t"), Ok(())),
        messages(&calls, Ok("m"), Ok(()), Err(store_error())),
    );
    assert_eq!(uc.by_thread("t"), Err(store_error()));
    assert_eq!(made(&calls), vec!["delete messages of t"]);
}

#[test]
fn cleanup_by_session_asks_the_messages_alone() {
    let calls = Calls::default();
    let uc = CleanupUseCase::new(
        threads(&calls, Ok("t"), Ok(())),
        messages(&calls, Ok("m"), Ok(()), Ok(3)),
    );
    assert_eq!(uc.by_session("s-1"), Ok(3));
    assert_eq!(made(&calls), vec!["delete session s-1"]);
}

#[test]
fn cleanup_by_age_asks_for_what_is_older_than_now_minus_the_days() {
    let calls = Calls::default();
    let uc = CleanupUseCase::new(
        threads(&calls, Ok("t"), Ok(())),
        messages(&calls, Ok("m"), Ok(()), Ok(5)),
    );
    let now = Timestamp { secs: 200_000, nanos: 5 };
    assert_eq!(uc.by_age_at(2, &now), Ok(5));
    assert_eq!(uc.by_age_at(0, &now), Ok(5));
    assert_eq!(
        uc.by_age_at(i64::MAX, &now),
        Err(DomainError::InvalidInput("age out of range".to_string()))
    );
    assert_eq!(made(&calls), vec!["delete older than 27200 5", "delete older than 200000 5"]);
}

#[test]
fn deleting_a_thread_resolves_it_then_deletes_its_messages_then_itself() {
    let calls = Calls::default();
    let uc = ThreadUseCase::new(
        threads(&calls, Ok("abcdef"), Ok(())),
        messages(&calls, Ok("m"), Ok(()), Ok(2)),
    );
    assert_eq!(uc.delete("ab"), Ok(()));
    assert_eq!(
        made(&calls),
        vec!["resolve ab", "delete messages of abcdef", "delete thread abcdef"]
    );
}

#[test]
fn deleting_a_thread_that_is_not_resolved_deletes_nothing() {
    let calls = Calls::default();
    let uc = ThreadUseCase::new(
        threads(&calls, Err(DomainError::AmbiguousShortId("ab".to_string(), 2)), Ok(())),
        messages(&calls, Ok("m"), Ok(()), Ok(2)),
    );
    assert_eq!(uc.delete("ab"), Err(DomainError::AmbiguousShortId("ab".to_string(), 2)));
    assert_eq!(made(&calls), vec!["resolve ab"]);
}

#[test]
fn deleting_a_thread_whose_messages_fail_leaves_the_thread() {
    let calls = Calls::default();
    let uc = ThreadUseCase::new(
        threads(&calls, Ok("abcdef"), Ok(())),
        messages(&calls, Ok("m"), Ok(()), Err(store_error())),
    );
    assert_eq!(uc.delete("ab"), Err(store_error()));
    assert_eq!(made(&calls), vec!["resolve ab", "delete messages of abcdef"]);
}

#[test]
fn changes_of_a_thread_go_to_the_thread_resolved() {
    let calls = Calls::default();
    let uc = ThreadUseCase::new(
        threads(&calls, Ok("abcdef"), Ok(())),
        messages(&calls, Ok("m"), Ok(()), Ok(0)),
    );
    assert_eq!(uc.close("ab"), Ok(()));
    assert_eq!(uc.reopen("ab"), Ok(()));
    assert_eq!(uc.set_phase("ab", Some(ThreadPhase::Done)), Ok(()));
    assert_eq!(uc.set_phase("ab", None), Ok(()));
    assert_eq!(
        made(&calls),
        vec![
            "resolve ab",
            "status abcdef Closed",
            "resolve ab",
            "status abcdef Open",
            "resolve ab",
            "phase abcdef Some(Done)",
            "resolve ab",
            "phase abcdef None",
        ]
    );
}

#[test]
fn a_change_that_the_store_refuses_answers_its_error() {
    let calls = Calls::default();
    let uc = ThreadUseCase::new(
        threads(&calls, Ok("abcdef"), Err(missing("abcdef"))),
        messages(&calls, Ok("m"), Ok(()), Ok(0)),
    );
    assert_eq!(uc.close("ab"), Err(missing("abcdef")));
    assert_eq!(uc.create("title").err(), Some(missing("abcdef")));
    assert_eq!(uc.fetch("http://x", None, None, "<p>x</p>").err(), Some(missing("abcdef")));
    assert_eq!(
        made(&calls),
        vec!["resolve ab", "status abcdef Closed", "create title", "create http://x"]
    );
}

#[test]
fn a_fetched_document_is_written_as_a_thread_and_then_a_message() {
    let calls = Calls::default();
    let uc = ThreadUseCase::new(
        threads(&calls, Ok("abcdef"), Ok(())),
        messages(&calls, Ok("m"), Ok(()), Ok(0)),
    );
    let thread = uc.fetch("http://x", Some("T"), None, "<p>x</p>").unwrap();
    assert_eq!(thread.title, "T");
    assert_eq!(made(&calls), vec!["create T".to_string(), format!("insert into {}", thread.id)]);
}

#[test]
fn updating_a_message_resolves_it_and_answers_its_whole_identifier() {
    let calls = Calls::default();
    let uc = MessageUseCase::new(messages(&calls, Ok("m-123"), Ok(()), Ok(0)));
    assert_eq!(uc.update("m-1", "new"), Ok("m-123".to_string()));
    let failing = MessageUseCase::new(messages(&calls, Ok("m-123"), Err(store_error()), Ok(0)));
    assert_eq!(failing.update("m-1", "new"), Err(store_error()));
    assert_eq!(
        made(&calls),
        vec![
            "resolve message m-1",
            "content m-123 new",
            "resolve message m-1",
            "content m-123 new",
        ]
    );
}

#[test]
fn a_thread_is_found_closed_only_where_it_was_found_and_is_closed() {
    let closed = Thread {
        id: "t".to_string(),
        name: None,
        title: "t".to_string(),
        source_url: None,
        status: ThreadStatus::Closed,
        phase: None,
        created_at: Timestamp { secs: 1, nanos: 0 },
        updated_at: Timestamp { secs: 1, nanos: 0 },
    };
    let open = Thread { status: ThreadStatus::Open, ..closed.clone() };
    assert!(found_closed(&Ok(Some(closed))));
    assert!(!found_closed(&Ok(Some(open))));
    assert!(!found_closed(&Ok(None)));
    assert!(!found_closed(&Err(store_error())));
}
