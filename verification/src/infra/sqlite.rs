//! The stores of threads and messages over the embedded relational store.
//!
//! Every operation goes the same way: the request is made from the arguments, the
//! request is handed to the store, and what comes back is confirmed. The request
//! and the confirmation each have their own exact contract; what the operation
//! itself promises of its answer holds whatever the store returned.

use vstd::prelude::*;
use crate::domain::entity::{Message, Thread, ThreadPhase, ThreadStatus};
use crate::domain::error::DomainError;
use crate::domain::instant::{format_datetime, now, stored_text, Timestamp};
use crate::domain::ordering::is_ordered;
use crate::domain::repository::{within, MessageRepository, ThreadRepository};
use crate::domain::resolver::{is_not_found, RecordKind};
use crate::domain::text::opt_str;
use crate::infra::batch::{encode_batch, is_batch_failure, is_first_defect, write_batch};
use crate::infra::codec::{MESSAGE_COLUMNS, THREAD_COLUMNS};
use crate::infra::confirm::{
    after_indexed, all_contain, change_outcome, confirms_mentions, confirms_message_with_id,
    confirms_recent_messages, confirms_search, confirms_thread_messages,
    confirms_thread_with_id, confirms_threads, have_width, listed_threads, mention_hits,
    message_with_id, recent_messages, resolved_id, search_hits, store_failed, thread_messages,
    thread_with_id, SearchNext, SearchStrategy,
};
use crate::infra::driver::{query_texts, run_statement};
use crate::infra::request::{
    cutoff_text,
    candidates_request, delete_by_session_request, delete_by_thread_request,
    delete_older_request, delete_thread_request, insert_message_request, mentions_request,
    message_by_id_request, recent_request, search_request, thread_by_id_request,
    thread_messages_request, threads_request, update_content_request, update_phase_request,
    update_status_request, write_thread_request, Request,
};
use crate::infra::schema::{is_store_failure, store_failure};

verus! {

/// Hands a request that changes the store to the store and returns the number of
/// rows that it changed, or the store's failure under `context`.
fn execute(conn: &rusqlite::Connection, request: &Request, context: &str) -> (r: Result<
    usize,
    DomainError,
>)
    ensures
        r matches Err(e) ==> is_store_failure(e, context@),
{
    match run_statement(conn, request.sql, &request.params) {
        Ok(affected) => Ok(affected),
        Err(e) => Err(store_failure(context, &e)),
    }
}

/// Hands a request that asks for rows to the store and returns the first `columns`
/// columns of every row, so that every row returned has exactly `columns` entries.
fn ask(conn: &rusqlite::Connection, request: &Request, columns: usize) -> (r: Result<
    Vec<Vec<Option<String>>>,
    DomainError,
>)
    ensures
        match r {
            Ok(rows) => have_width(rows@, columns as nat),
            Err(e) => e is Database,
        },
{
    match query_texts(conn, request.sql, &request.params, columns) {
        Ok(rows) => Ok(rows),
        Err(e) => Err(store_failure("", &e)),
    }
}

/// Changes the record `id` and answers for it: a change that touched nothing found
/// no such record.
fn change(conn: &rusqlite::Connection, request: &Request, kind: RecordKind, id: &str) -> (r:
    Result<(), DomainError>)
    ensures
        r matches Err(e) ==> e is Database || is_not_found(e, kind, id@),
{
    match execute(conn, request, "") {
        Ok(affected) => change_outcome(affected, kind, id),
        Err(e) => Err(e),
    }
}

/// `r` is what the store answers under `strategy`: its failure, or what is confirmed
/// of some rows that it returned.
pub open spec fn is_attempt(
    r: Result<Vec<Message>, DomainError>,
    strategy: SearchStrategy,
    query: Seq<char>,
    scope: Option<Seq<char>>,
) -> bool {
    store_failed(r) || exists|rows: Seq<Vec<Option<String>>>|
        have_width(rows, MESSAGE_COLUMNS as nat) && #[trigger] confirms_search(
            r,
            rows,
            strategy,
            query,
            scope,
        )
}

/// `r` is something that a search may answer: messages that the index found, or
/// anything that the literal attempt may answer. A failure of the store reads the
/// same under both strategies, so this does not tell whose a store error is; that
/// no error of the index is handed on is what `after_indexed` decides.
pub open spec fn is_search_answer(
    r: Result<Vec<Message>, DomainError>,
    query: Seq<char>,
    scope: Option<Seq<char>>,
) -> bool {
    ||| r is Ok && is_attempt(r, SearchStrategy::Indexed, query, scope)
    ||| is_attempt(r, SearchStrategy::Literal, query, scope)
}

/// `r` is what changing the record `id` of `kind` at the instant now answers:
/// success, the not-found error for `id`, a failure of the store, or the input error
/// for an instant that cannot be written.
pub open spec fn is_timed_change(
    r: Result<(), DomainError>,
    kind: RecordKind,
    id: Seq<char>,
) -> bool {
    r matches Err(e) ==> {
        ||| e is Database
        ||| is_not_found(e, kind, id)
        ||| (e matches DomainError::InvalidInput(why) && why@ == "timestamp out of range"@)
    }
}

/// The text of the instant now, as the store keeps it: the stored text of some
/// instant, or the input error for an instant that cannot be written.
fn now_text() -> (r: Result<String, DomainError>)
    ensures
        match r {
            Ok(s) => exists|t: Timestamp| #[trigger] stored_text(t) == Some(s@),
            Err(e) => e matches DomainError::InvalidInput(why) && why@
                == "timestamp out of range"@,
        },
{
    let t = now();
    match format_datetime(&t) {
        Some(s) => Ok(s),
        None => Err(DomainError::InvalidInput(String::from_str("timestamp out of range"))),
    }
}

/// The store of threads over one connection.
pub struct SqliteThreadRepository<'a> {
    conn: &'a rusqlite::Connection,
}

impl<'a> SqliteThreadRepository<'a> {
    /// The connection over which the store works.
    pub closed spec fn connection(&self) -> rusqlite::Connection {
        *self.conn
    }

    /// The store of threads over `conn`.
    pub fn new(conn: &'a rusqlite::Connection) -> (r: Self)
        ensures
            r.connection() == *conn,
    {
        SqliteThreadRepository { conn }
    }
}

impl<'a> ThreadRepository for SqliteThreadRepository<'a> {
    fn create(&self, thread: &Thread) -> (r: Result<(), DomainError>)
        ensures
            r matches Err(e) ==> e is InvalidInput || is_store_failure(
                e,
                "failed to create thread: "@,
            ),
    {
        let request = match write_thread_request(thread, false) {
            Ok(q) => q,
            Err(e) => { return Err(e); },
        };
        match execute(self.conn, &request, "failed to create thread: ") {
            Ok(_) => Ok(()),
            Err(e) => Err(e),
        }
    }

    fn upsert(&self, thread: &Thread) -> (r: Result<(), DomainError>)
        ensures
            r matches Err(e) ==> e is InvalidInput || is_store_failure(
                e,
                "failed to upsert thread: "@,
            ),
    {
        let request = match write_thread_request(thread, true) {
            Ok(q) => q,
            Err(e) => { return Err(e); },
        };
        match execute(self.conn, &request, "failed to upsert thread: ") {
            Ok(_) => Ok(()),
            Err(e) => Err(e),
        }
    }

    fn find_by_id(&self, id: &str) -> (r: Result<Option<Thread>, DomainError>)
        ensures
            store_failed(r) || exists|rows: Seq<Vec<Option<String>>>|
                have_width(rows, THREAD_COLUMNS as nat) && #[trigger] confirms_thread_with_id(
                    r,
                    rows,
                    id@,
                ),
    {
        match ask(self.conn, &thread_by_id_request(id), THREAD_COLUMNS) {
            Ok(rows) => {
                let ghost given = rows@;
                let r = thread_with_id(rows, id);
                assert(confirms_thread_with_id(r, given, id@));
                r
            },
            Err(e) => Err(e),
        }
    }

    fn resolve_short_id(&self, short_id: &str) -> (r: Result<String, DomainError>) {
        match ask(self.conn, &candidates_request(RecordKind::Thread, short_id), 1) {
            Ok(rows) => resolved_id(rows, short_id, RecordKind::Thread),
            Err(e) => Err(e),
        }
    }

    fn list(&self) -> (r: Result<Vec<Thread>, DomainError>)
        ensures
            store_failed(r) || exists|rows: Seq<Vec<Option<String>>>|
                have_width(rows, THREAD_COLUMNS as nat) && #[trigger] confirms_threads(
                    r,
                    rows,
                    None,
                ),
    {
        self.list_by_status(None)
    }

    fn list_by_status(&self, status: Option<ThreadStatus>) -> (r: Result<Vec<Thread>, DomainError>)
        ensures
            store_failed(r) || exists|rows: Seq<Vec<Option<String>>>|
                have_width(rows, THREAD_COLUMNS as nat) && #[trigger] confirms_threads(
                    r,
                    rows,
                    status,
                ),
    {
        match ask(self.conn, &threads_request(status), THREAD_COLUMNS) {
            Ok(rows) => {
                let ghost given = rows@;
                let r = listed_threads(rows, status);
                assert(confirms_threads(r, given, status));
                r
            },
            Err(e) => Err(e),
        }
    }

    fn update_status(&self, id: &str, status: ThreadStatus) -> (r: Result<(), DomainError>)
        ensures
            is_timed_change(r, RecordKind::Thread, id@),
    {
        let stamp = match now_text() {
            Ok(s) => s,
            Err(e) => { return Err(e); },
        };
        let request = update_status_request(id, status, stamp.as_str());
        change(self.conn, &request, RecordKind::Thread, id)
    }

    fn update_phase(&self, id: &str, phase: Option<ThreadPhase>) -> (r: Result<(), DomainError>)
        ensures
            is_timed_change(r, RecordKind::Thread, id@),
    {
        let stamp = match now_text() {
            Ok(s) => s,
            Err(e) => { return Err(e); },
        };
        let request = update_phase_request(id, phase, stamp.as_str());
        change(self.conn, &request, RecordKind::Thread, id)
    }

    fn delete(&self, id: &str) -> (r: Result<(), DomainError>)
        ensures
            r matches Err(e) ==> e is Database || is_not_found(e, RecordKind::Thread, id@),
    {
        change(self.conn, &delete_thread_request(id), RecordKind::Thread, id)
    }
}

/// The store of messages over one connection.
pub struct SqliteMessageRepository<'a> {
    conn: &'a rusqlite::Connection,
}

impl<'a> SqliteMessageRepository<'a> {
    /// The connection over which the store works.
    pub closed spec fn connection(&self) -> rusqlite::Connection {
        *self.conn
    }

    /// The store of messages over `conn`.
    pub fn new(conn: &'a rusqlite::Connection) -> (r: Self)
        ensures
            r.connection() == *conn,
    {
        SqliteMessageRepository { conn }
    }

    /// The messages that match `query` under one strategy, of one thread where one
    /// is given, the newest first. Under the indexed strategy a query that the index
    /// cannot read, or a store without the index, is a store error. Under the
    /// literal strategy every message of the answer contains `query` letter for
    /// letter, and no character of `query` is a wildcard.
    pub fn search_with(&self, strategy: SearchStrategy, query: &str, thread_id: Option<&str>) -> (r:
        Result<Vec<Message>, DomainError>)
        ensures
            r matches Ok(v) ==> {
                &&& is_ordered(v@, true)
                &&& within(v@, opt_str(thread_id))
                &&& strategy == SearchStrategy::Literal ==> all_contain(v@, query@)
            },
            r matches Err(e) ==> e is Database,
            store_failed(r) || exists|rows: Seq<Vec<Option<String>>>|
                have_width(rows, MESSAGE_COLUMNS as nat) && #[trigger] confirms_search(
                    r,
                    rows,
                    strategy,
                    query@,
                    opt_str(thread_id),
                ),
    {
        let request = search_request(strategy, query, thread_id);
        match ask(self.conn, &request, MESSAGE_COLUMNS) {
            Ok(rows) => {
                let ghost given = rows@;
                let r = search_hits(rows, strategy, query, thread_id);
                assert(confirms_search(r, given, strategy, query@, opt_str(thread_id)));
                r
            },
            Err(e) => Err(e),
        }
    }

    /// The messages that the store's full-text index matches with `query`.
    pub fn search_fts(&self, query: &str, thread_id: Option<&str>) -> (r: Result<
        Vec<Message>,
        DomainError,
    >)
        ensures
            r matches Ok(v) ==> is_ordered(v@, true) && within(v@, opt_str(thread_id)),
            r matches Err(e) ==> e is Database,
            store_failed(r) || exists|rows: Seq<Vec<Option<String>>>|
                have_width(rows, MESSAGE_COLUMNS as nat) && #[trigger] confirms_search(
                    r,
                    rows,
                    SearchStrategy::Indexed,
                    query@,
                    opt_str(thread_id),
                ),
    {
        self.search_with(SearchStrategy::Indexed, query, thread_id)
    }

    /// The messages whose content contains `query` letter for letter.
    pub fn search_like(&self, query: &str, thread_id: Option<&str>) -> (r: Result<
        Vec<Message>,
        DomainError,
    >)
        ensures
            r matches Ok(v) ==> {
                &&& is_ordered(v@, true)
                &&& within(v@, opt_str(thread_id))
                &&& all_contain(v@, query@)
            },
            r matches Err(e) ==> e is Database,
            store_failed(r) || exists|rows: Seq<Vec<Option<String>>>|
                have_width(rows, MESSAGE_COLUMNS as nat) && #[trigger] confirms_search(
                    r,
                    rows,
                    SearchStrategy::Literal,
                    query@,
                    opt_str(thread_id),
                ),
    {
        self.search_with(SearchStrategy::Literal, query, thread_id)
    }
}

impl<'a> MessageRepository for SqliteMessageRepository<'a> {
    fn insert(&self, message: &Message) -> (r: Result<(), DomainError>)
        ensures
            r matches Err(e) ==> e is InvalidInput || is_store_failure(
                e,
                "failed to insert message: "@,
            ),
    {
        let request = match insert_message_request(message) {
            Ok(q) => q,
            Err(e) => { return Err(e); },
        };
        match execute(self.conn, &request, "failed to insert message: ") {
            Ok(_) => Ok(()),
            Err(e) => Err(e),
        }
    }

    fn insert_batch(&self, messages: &[Message]) -> (r: Result<usize, DomainError>)
        ensures
            r matches Err(e) ==> (e matches DomainError::InvalidInput(why) && is_first_defect(
                messages@,
                why@,
            )) || is_batch_failure(e),
    {
        let encoded = match encode_batch(messages) {
            Ok(e) => e,
            Err(e) => { return Err(e); },
        };
        write_batch(self.conn, &encoded)
    }

    fn find_by_id(&self, id: &str) -> (r: Result<Option<Message>, DomainError>)
        ensures
            store_failed(r) || exists|rows: Seq<Vec<Option<String>>>|
                have_width(rows, MESSAGE_COLUMNS as nat) && #[trigger] confirms_message_with_id(
                    r,
                    rows,
                    id@,
                ),
    {
        match ask(self.conn, &message_by_id_request(id), MESSAGE_COLUMNS) {
            Ok(rows) => {
                let ghost given = rows@;
                let r = message_with_id(rows, id);
                assert(confirms_message_with_id(r, given, id@));
                r
            },
            Err(e) => Err(e),
        }
    }

    fn resolve_short_id(&self, short_id: &str) -> (r: Result<String, DomainError>) {
        match ask(self.conn, &candidates_request(RecordKind::Message, short_id), 1) {
            Ok(rows) => resolved_id(rows, short_id, RecordKind::Message),
            Err(e) => Err(e),
        }
    }

    fn find_by_thread(&self, thread_id: &str) -> (r: Result<Vec<Message>, DomainError>)
        ensures
            store_failed(r) || exists|rows: Seq<Vec<Option<String>>>|
                have_width(rows, MESSAGE_COLUMNS as nat) && #[trigger] confirms_thread_messages(
                    r,
                    rows,
                    thread_id@,
                ),
    {
        match ask(self.conn, &thread_messages_request(thread_id), MESSAGE_COLUMNS) {
            Ok(rows) => {
                let ghost given = rows@;
                let r = thread_messages(rows, thread_id);
                assert(confirms_thread_messages(r, given, thread_id@));
                r
            },
            Err(e) => Err(e),
        }
    }

    fn list_recent(&self, limit: usize) -> (r: Result<Vec<Message>, DomainError>)
        ensures
            store_failed(r) || exists|rows: Seq<Vec<Option<String>>>|
                have_width(rows, MESSAGE_COLUMNS as nat) && #[trigger] confirms_recent_messages(
                    r,
                    rows,
                    limit,
                ),
    {
        match ask(self.conn, &recent_request(limit), MESSAGE_COLUMNS) {
            Ok(rows) => {
                let ghost given = rows@;
                let r = recent_messages(rows, limit);
                assert(confirms_recent_messages(r, given, limit));
                r
            },
            Err(e) => Err(e),
        }
    }

    fn search(&self, query: &str, thread_id: Option<&str>) -> (r: Result<
        Vec<Message>,
        DomainError,
    >)
        ensures
            is_search_answer(r, query@, opt_str(thread_id)),
    {
        let first = self.search_with(SearchStrategy::Indexed, query, thread_id);
        match after_indexed(first) {
            SearchNext::Done(found) => Ok(found),
            SearchNext::TryLiteral => self.search_with(SearchStrategy::Literal, query, thread_id),
        }
    }

    fn update_content(&self, id: &str, content: &str) -> (r: Result<(), DomainError>)
        ensures
            is_timed_change(r, RecordKind::Message, id@),
    {
        let stamp = match now_text() {
            Ok(s) => s,
            Err(e) => { return Err(e); },
        };
        let request = update_content_request(id, content, stamp.as_str());
        change(self.conn, &request, RecordKind::Message, id)
    }

    fn delete_by_thread(&self, thread_id: &str) -> (r: Result<usize, DomainError>) {
        execute(self.conn, &delete_by_thread_request(thread_id), "")
    }

    fn delete_by_session(&self, session_id: &str) -> (r: Result<usize, DomainError>) {
        execute(self.conn, &delete_by_session_request(session_id), "")
    }

    fn delete_older_than(&self, before: &Timestamp) -> (r: Result<usize, DomainError>)
        ensures
            cutoff_text(*before) is None <==> r matches Err(DomainError::InvalidInput(_)),
            r matches Err(DomainError::InvalidInput(why)) ==> why@ == "timestamp out of range"@,
    {
        match delete_older_request(before) {
            Ok(request) => execute(self.conn, &request, ""),
            Err(e) => Err(e),
        }
    }

    fn find_mentions(&self, thread_id: Option<&str>, mention_target: &str) -> (r: Result<
        Vec<Message>,
        DomainError,
    >)
        ensures
            store_failed(r) || exists|rows: Seq<Vec<Option<String>>>|
                have_width(rows, MESSAGE_COLUMNS as nat) && #[trigger] confirms_mentions(
                    r,
                    rows,
                    opt_str(thread_id),
                    mention_target@,
                ),
    {
        match ask(self.conn, &mentions_request(thread_id, mention_target), MESSAGE_COLUMNS) {
            Ok(rows) => {
                let ghost given = rows@;
                let r = mention_hits(rows, thread_id, mention_target);
                assert(confirms_mentions(r, given, opt_str(thread_id), mention_target@));
                r
            },
            Err(e) => Err(e),
        }
    }

    fn count_mentions(&self, thread_id: Option<&str>, mention_target: &str) -> (r: Result<
        usize,
        DomainError,
    >)
        ensures
            r matches Ok(n) ==> exists|rows: Seq<Vec<Option<String>>>, found: Vec<Message>|
                have_width(rows, MESSAGE_COLUMNS as nat) && #[trigger] confirms_mentions(
                    Ok(found),
                    rows,
                    opt_str(thread_id),
                    mention_target@,
                ) && n == found@.len(),
    {
        match self.find_mentions(thread_id, mention_target) {
            Ok(found) => Ok(found.len()),
            Err(e) => Err(e),
        }
    }
}

} // verus!
