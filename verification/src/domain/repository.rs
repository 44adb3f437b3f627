//! What a store of threads and a store of messages owe their callers.
//!
//! A store may be shared with other processes, so no operation promises what a
//! later operation will find. Each one promises what holds of its own answer.

use vstd::prelude::*;
use crate::domain::entity::{
    message_defect, thread_defect, Message, Thread, ThreadPhase, ThreadStatus,
};
use crate::domain::error::DomainError;
use crate::domain::instant::Timestamp;
use crate::domain::mention::has_mention;
use crate::domain::ordering::is_ordered;
use crate::domain::resolver::{is_not_found, RecordKind};
use crate::domain::text::{opt_str, starts_with};

verus! {

/// Every message of `v` belongs to the thread `scope`, if a thread is given.
pub open spec fn within(v: Seq<Message>, scope: Option<Seq<char>>) -> bool {
    scope matches Some(thread_id) ==> forall|i: int|
        0 <= i < v.len() ==> (#[trigger] v[i]).thread_id@ == thread_id
}

/// Every message of `v` mentions `target`.
pub open spec fn all_mention(v: Seq<Message>, target: Seq<char>) -> bool {
    forall|i: int| 0 <= i < v.len() ==> has_mention((#[trigger] v[i]).content@, target)
}

/// Every thread of `v` has the status `wanted`, if a status is given.
pub open spec fn all_with_status(v: Seq<Thread>, wanted: Option<ThreadStatus>) -> bool {
    wanted matches Some(status) ==> forall|i: int|
        0 <= i < v.len() ==> (#[trigger] v[i]).status == status
}

/// `r` is what resolving `short_id` among records of `kind` may answer: an
/// identifier that begins with it, the not-found error, an ambiguity of at least two
/// records, or a failure of the store.
pub open spec fn is_resolution(
    r: Result<String, DomainError>,
    kind: RecordKind,
    short_id: Seq<char>,
) -> bool {
    match r {
        Ok(id) => starts_with(id@, short_id),
        Err(e) => {
            ||| e is Database
            ||| is_not_found(e, kind, short_id)
            ||| (e matches DomainError::AmbiguousShortId(p, n) && p@ == short_id && n >= 2)
        },
    }
}

/// `r` is what changing or deleting the record `id` of `kind` may answer: success,
/// the not-found error for `id`, or an error of the store or of the input.
pub open spec fn is_change_outcome<T>(
    r: Result<T, DomainError>,
    kind: RecordKind,
    id: Seq<char>,
) -> bool {
    r matches Err(e) ==> e is Database || e is InvalidInput || is_not_found(e, kind, id)
}

/// `r` fails, if it fails, on the store or on the input.
pub open spec fn fails_on_store_or_input<T>(r: Result<T, DomainError>) -> bool {
    r matches Err(e) ==> e is Database || e is InvalidInput
}

/// `r` is what writing one record with the given defect may answer: with a defect,
/// the input error that names it; without, success or a failure of the store.
pub open spec fn is_write_outcome(r: Result<(), DomainError>, defect: Option<Seq<char>>) -> bool {
    match defect {
        Some(why) => r matches Err(DomainError::InvalidInput(text)) && text@ == why,
        None => r matches Err(e) ==> e is Database,
    }
}

/// A store of threads.
pub trait ThreadRepository {
    /// Writes a new thread. A thread with the identifier of a stored one is refused
    /// by the store.
    fn create(&self, thread: &Thread) -> (r: Result<(), DomainError>)
        ensures
            is_write_outcome(r, thread_defect(thread@)),
    ;

    /// Writes a thread unless one with its identifier is stored already.
    fn upsert(&self, thread: &Thread) -> (r: Result<(), DomainError>)
        ensures
            is_write_outcome(r, thread_defect(thread@)),
    ;

    /// The thread with the identifier `id`, if the store has it.
    fn find_by_id(&self, id: &str) -> (r: Result<Option<Thread>, DomainError>)
        ensures
            r matches Ok(Some(t)) ==> t.id@ == id@,
            r matches Err(e) ==> e is Database,
    ;

    /// The identifier of the one thread whose identifier begins with `short_id`.
    fn resolve_short_id(&self, short_id: &str) -> (r: Result<String, DomainError>)
        ensures
            is_resolution(r, RecordKind::Thread, short_id@),
    ;

    /// All threads, the most recently updated first.
    fn list(&self) -> (r: Result<Vec<Thread>, DomainError>)
        ensures
            r matches Ok(v) ==> is_ordered(v@, true),
            r matches Err(e) ==> e is Database,
    ;

    /// The threads with the given status, or all threads where none is given, the
    /// most recently updated first.
    fn list_by_status(&self, status: Option<ThreadStatus>) -> (r: Result<Vec<Thread>, DomainError>)
        ensures
            r matches Ok(v) ==> is_ordered(v@, true) && all_with_status(v@, status),
            r matches Err(e) ==> e is Database,
    ;

    /// Sets the status of the thread `id`.
    fn update_status(&self, id: &str, status: ThreadStatus) -> (r: Result<(), DomainError>)
        ensures
            is_change_outcome(r, RecordKind::Thread, id@),
    ;

    /// Sets the phase of the thread `id`, or clears it with `None`.
    fn update_phase(&self, id: &str, phase: Option<ThreadPhase>) -> (r: Result<(), DomainError>)
        ensures
            is_change_outcome(r, RecordKind::Thread, id@),
    ;

    /// Deletes the thread `id`, and nothing else: its messages stay.
    fn delete(&self, id: &str) -> (r: Result<(), DomainError>)
        ensures
            is_change_outcome(r, RecordKind::Thread, id@),
    ;
}

/// A store of messages.
pub trait MessageRepository {
    /// Writes one message as the caller supplies it.
    fn insert(&self, message: &Message) -> (r: Result<(), DomainError>)
        ensures
            is_write_outcome(r, message_defect(message@)),
    ;

    /// Writes all of `messages` or none of them, and returns their number. A defect
    /// in any one of them fails the batch before the store is touched.
    fn insert_batch(&self, messages: &[Message]) -> (r: Result<usize, DomainError>)
        ensures
            r matches Ok(n) ==> n == messages@.len(),
            (exists|i: int| 0 <= i < messages@.len() && message_defect(messages@[i]@) is Some)
                ==> (r matches Err(e) && e is InvalidInput),
            fails_on_store_or_input(r),
    ;

    /// The message with the identifier `id`, if the store has it.
    fn find_by_id(&self, id: &str) -> (r: Result<Option<Message>, DomainError>)
        ensures
            r matches Ok(Some(m)) ==> m.id@ == id@,
            r matches Err(e) ==> e is Database,
    ;

    /// The identifier of the one message whose identifier begins with `short_id`.
    fn resolve_short_id(&self, short_id: &str) -> (r: Result<String, DomainError>)
        ensures
            is_resolution(r, RecordKind::Message, short_id@),
    ;

    /// The messages of one thread, in the order of the conversation: oldest first.
    fn find_by_thread(&self, thread_id: &str) -> (r: Result<Vec<Message>, DomainError>)
        ensures
            r matches Ok(v) ==> is_ordered(v@, false) && within(v@, Some(thread_id@)),
            r matches Err(e) ==> e is Database,
    ;

    /// At most `limit` messages of all threads, the newest first.
    fn list_recent(&self, limit: usize) -> (r: Result<Vec<Message>, DomainError>)
        ensures
            r matches Ok(v) ==> is_ordered(v@, true) && v@.len() <= limit,
            r matches Err(e) ==> e is Database,
    ;

    /// The messages that match `query`, of one thread where one is given, the newest
    /// first.
    fn search(&self, query: &str, thread_id: Option<&str>) -> (r: Result<
        Vec<Message>,
        DomainError,
    >)
        ensures
            r matches Ok(v) ==> is_ordered(v@, true) && within(v@, opt_str(thread_id)),
            r matches Err(e) ==> e is Database,
    ;

    /// Replaces the content of the message `id` and sets its update instant to now.
    fn update_content(&self, id: &str, content: &str) -> (r: Result<(), DomainError>)
        ensures
            is_change_outcome(r, RecordKind::Message, id@),
    ;

    /// Deletes the messages of one thread and returns their number.
    fn delete_by_thread(&self, thread_id: &str) -> (r: Result<usize, DomainError>)
        ensures
            r matches Err(e) ==> e is Database,
    ;

    /// Deletes the messages of one session and returns their number.
    fn delete_by_session(&self, session_id: &str) -> (r: Result<usize, DomainError>)
        ensures
            r matches Err(e) ==> e is Database,
    ;

    /// Deletes the messages created strictly before `before` and returns their
    /// number.
    fn delete_older_than(&self, before: &Timestamp) -> (r: Result<usize, DomainError>)
        ensures
            fails_on_store_or_input(r),
    ;

    /// The messages that mention `mention_target`, of one thread where one is given,
    /// the newest first.
    fn find_mentions(&self, thread_id: Option<&str>, mention_target: &str) -> (r: Result<
        Vec<Message>,
        DomainError,
    >)
        ensures
            r matches Ok(v) ==> {
                &&& is_ordered(v@, true)
                &&& within(v@, opt_str(thread_id))
                &&& all_mention(v@, mention_target@)
            },
            r matches Err(e) ==> e is Database,
    ;

    /// The number of messages that mention `mention_target`.
    fn count_mentions(&self, thread_id: Option<&str>, mention_target: &str) -> (r: Result<
        usize,
        DomainError,
    >)
        ensures
            r matches Err(e) ==> e is Database,
    ;
}

} // verus!
