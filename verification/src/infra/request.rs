//! What each operation hands to the store: a statement and the values bound to its
//! placeholders. Every request is fixed by the arguments of the operation.

use vstd::prelude::*;
use crate::domain::entity::{
    message_defect, thread_defect, Message, Thread, ThreadPhase, ThreadStatus,
};
use crate::domain::error::DomainError;
use crate::domain::instant::{format_datetime, stored_text, Timestamp};
use crate::domain::mention::{mention_pattern, mention_pattern_of};
use crate::domain::pattern::{
    contains_folded, contains_pattern, contains_pattern_of, is_plain,
    lemma_contains_pattern_covers, lemma_contains_pattern_is_literal, lemma_escaped_plain,
    like_matches, prefix_pattern, prefix_pattern_of,
};
use crate::domain::resolver::RecordKind;
use crate::domain::text::{contains_text, opt_str};
use crate::infra::codec::{
    encode_message, encode_thread, message_params, params_of, phase_value, text_param,
    text_value, thread_params,
};
use crate::infra::confirm::SearchStrategy;
use crate::infra::driver::{SqlValue, SqlValueView};
use crate::infra::statements::{
    DELETE_BY_SESSION_SQL, DELETE_BY_THREAD_SQL, DELETE_OLDER_SQL, DELETE_THREAD_SQL,
    INSERT_MESSAGE_SQL, INSERT_THREAD_SQL, LIKE_IN_THREAD_SQL, LIKE_SQL, MATCH_IN_THREAD_SQL,
    MATCH_SQL, MESSAGES_BY_THREAD_SQL, MESSAGE_BY_ID_SQL, MESSAGE_IDS_LIKE_SQL,
    RECENT_MESSAGES_SQL, THREADS_BY_STATUS_SQL, THREADS_SQL, THREAD_BY_ID_SQL,
    THREAD_IDS_LIKE_SQL, UPDATE_CONTENT_SQL, UPDATE_PHASE_SQL, UPDATE_STATUS_SQL,
    UPSERT_THREAD_SQL,
};

verus! {

/// A statement with the values bound to its placeholders, in their order.
#[derive(Debug, Clone, PartialEq, Eq)]
pub struct Request {
    pub sql: &'static str,
    pub params: Vec<SqlValue>,
}

impl Request {
    /// The request is for the statement `sql` with the values `params`.
    pub open spec fn is(&self, sql: Seq<char>, params: Seq<SqlValueView>) -> bool {
        self.sql@ == sql && params_of(self.params@) == params
    }
}

/// The request with one text bound.
pub fn with_text(sql: &'static str, value: &str) -> (r: Request)
    ensures
        r.is(sql@, seq![text_value(value@)]),
{
    let mut params: Vec<SqlValue> = Vec::new();
    params.push(text_param(value));
    let r = Request { sql, params };
    assert(params_of(r.params@) =~= seq![text_value(value@)]);
    r
}

/// The request that writes `message`, or the input error that names its defect.
pub fn insert_message_request(message: &Message) -> (r: Result<Request, DomainError>)
    ensures
        match r {
            Ok(request) => message_defect(message@) is None && request.is(
                INSERT_MESSAGE_SQL@,
                message_params(message@),
            ),
            Err(e) => e matches DomainError::InvalidInput(why) && message_defect(message@) == Some(
                why@,
            ),
        },
{
    match encode_message(message) {
        Ok(params) => Ok(Request { sql: INSERT_MESSAGE_SQL, params }),
        Err(e) => Err(e),
    }
}

/// The request that writes `thread`: always, or only where no thread with its
/// identifier is stored. A thread with a defect gives the input error that names it.
pub fn write_thread_request(thread: &Thread, only_if_absent: bool) -> (r: Result<
    Request,
    DomainError,
>)
    ensures
        match r {
            Ok(request) => thread_defect(thread@) is None && request.is(
                if only_if_absent {
                    UPSERT_THREAD_SQL@
                } else {
                    INSERT_THREAD_SQL@
                },
                thread_params(thread@),
            ),
            Err(e) => e matches DomainError::InvalidInput(why) && thread_defect(thread@) == Some(
                why@,
            ),
        },
{
    let sql = if only_if_absent {
        UPSERT_THREAD_SQL
    } else {
        INSERT_THREAD_SQL
    };
    match encode_thread(thread) {
        Ok(params) => Ok(Request { sql, params }),
        Err(e) => Err(e),
    }
}

/// The statement that reads the identifiers of one kind of record.
pub open spec fn ids_sql(kind: RecordKind) -> Seq<char> {
    match kind {
        RecordKind::Thread => THREAD_IDS_LIKE_SQL@,
        RecordKind::Message => MESSAGE_IDS_LIKE_SQL@,
    }
}

/// The request for the identifiers that may begin with `short_id`: those that match
/// the pattern made of it, in which no character of `short_id` is a wildcard.
pub fn candidates_request(kind: RecordKind, short_id: &str) -> (r: Request)
    ensures
        r.is(ids_sql(kind), seq![text_value(prefix_pattern_of(short_id@))]),
{
    let sql = match kind {
        RecordKind::Thread => THREAD_IDS_LIKE_SQL,
        RecordKind::Message => MESSAGE_IDS_LIKE_SQL,
    };
    let pattern = prefix_pattern(short_id);
    with_text(sql, pattern.as_str())
}

/// The request for the thread with the identifier `id`.
pub fn thread_by_id_request(id: &str) -> (r: Request)
    ensures
        r.is(THREAD_BY_ID_SQL@, seq![text_value(id@)]),
{
    with_text(THREAD_BY_ID_SQL, id)
}

/// The request for the message with the identifier `id`.
pub fn message_by_id_request(id: &str) -> (r: Request)
    ensures
        r.is(MESSAGE_BY_ID_SQL@, seq![text_value(id@)]),
{
    with_text(MESSAGE_BY_ID_SQL, id)
}

/// The request for the threads of the status `wanted`, or for all threads.
pub fn threads_request(wanted: Option<ThreadStatus>) -> (r: Request)
    ensures
        match wanted {
            Some(status) => r.is(THREADS_BY_STATUS_SQL@, seq![text_value(status.text())]),
            None => r.is(THREADS_SQL@, Seq::empty()),
        },
{
    match wanted {
        Some(status) => with_text(THREADS_BY_STATUS_SQL, status.as_str()),
        None => {
            let r = Request { sql: THREADS_SQL, params: Vec::new() };
            assert(params_of(r.params@) =~= Seq::<SqlValueView>::empty());
            r
        },
    }
}

/// The request that sets the status of the thread `id`, with `stamp` as the text of
/// the instant of the update.
pub fn update_status_request(id: &str, status: ThreadStatus, stamp: &str) -> (r: Request)
    ensures
        r.is(
            UPDATE_STATUS_SQL@,
            seq![text_value(status.text()), text_value(stamp@), text_value(id@)],
        ),
{
    let mut params: Vec<SqlValue> = Vec::new();
    params.push(text_param(status.as_str()));
    params.push(text_param(stamp));
    params.push(text_param(id));
    let r = Request { sql: UPDATE_STATUS_SQL, params };
    assert(params_of(r.params@) =~= seq![
        text_value(status.text()),
        text_value(stamp@),
        text_value(id@),
    ]);
    r
}

/// The request that sets or clears the phase of the thread `id`.
pub fn update_phase_request(id: &str, phase: Option<ThreadPhase>, stamp: &str) -> (r: Request)
    ensures
        r.is(UPDATE_PHASE_SQL@, seq![phase_value(phase), text_value(stamp@), text_value(id@)]),
{
    let mut params: Vec<SqlValue> = Vec::new();
    params.push(
        match phase {
            Some(p) => text_param(p.as_str()),
            None => SqlValue::Null,
        },
    );
    params.push(text_param(stamp));
    params.push(text_param(id));
    let r = Request { sql: UPDATE_PHASE_SQL, params };
    assert(params_of(r.params@) =~= seq![
        phase_value(phase),
        text_value(stamp@),
        text_value(id@),
    ]);
    r
}

/// The request that deletes the thread `id`.
pub fn delete_thread_request(id: &str) -> (r: Request)
    ensures
        r.is(DELETE_THREAD_SQL@, seq![text_value(id@)]),
{
    with_text(DELETE_THREAD_SQL, id)
}

/// The request for the messages of the thread `thread_id`.
pub fn thread_messages_request(thread_id: &str) -> (r: Request)
    ensures
        r.is(MESSAGES_BY_THREAD_SQL@, seq![text_value(thread_id@)]),
{
    with_text(MESSAGES_BY_THREAD_SQL, thread_id)
}

/// The limit as the store takes it: the limit itself, or the largest number that
/// the store can hold where the limit is larger.
pub open spec fn stored_limit(limit: usize) -> int {
    if limit > i64::MAX {
        i64::MAX as int
    } else {
        limit as int
    }
}

/// The request for the newest messages, at most `limit`.
pub fn recent_request(limit: usize) -> (r: Request)
    ensures
        r.is(RECENT_MESSAGES_SQL@, seq![SqlValueView::Integer(stored_limit(limit))]),
{
    let wide: u64 = limit as u64;
    let bound: i64 = if wide > 0x7fff_ffff_ffff_ffff {
        0x7fff_ffff_ffff_ffff
    } else {
        wide as i64
    };
    let mut params: Vec<SqlValue> = Vec::new();
    params.push(SqlValue::Integer(bound));
    let r = Request { sql: RECENT_MESSAGES_SQL, params };
    assert(params_of(r.params@) =~= seq![SqlValueView::Integer(stored_limit(limit))]);
    r
}

/// The statement of a search under a strategy, within a thread or not.
pub open spec fn search_sql(strategy: SearchStrategy, scoped: bool) -> Seq<char> {
    match strategy {
        SearchStrategy::Indexed => if scoped {
            MATCH_IN_THREAD_SQL@
        } else {
            MATCH_SQL@
        },
        SearchStrategy::Literal => if scoped {
            LIKE_IN_THREAD_SQL@
        } else {
            LIKE_SQL@
        },
    }
}

/// What a search asks the store to match: the query as it is under the indexed
/// strategy, the pattern for "contains the query, taken literally" under the literal
/// one.
pub open spec fn search_term(strategy: SearchStrategy, query: Seq<char>) -> Seq<char> {
    match strategy {
        SearchStrategy::Indexed => query,
        SearchStrategy::Literal => contains_pattern_of(query),
    }
}

/// What a literal search asks the store for is every content in which the query
/// stands, the case of ASCII letters disregarded, and nothing else: `%` and `_` in
/// the query stand for themselves, and no content that the confirmation would keep
/// is missing from the candidates.
pub proof fn lemma_literal_search_asks_for_every_hit(query: Seq<char>, content: Seq<char>)
    ensures
        like_matches(search_term(SearchStrategy::Literal, query), content) <==> contains_folded(
            content,
            query,
        ),
        contains_text(content, query) ==> like_matches(
            search_term(SearchStrategy::Literal, query),
            content,
        ),
{
    lemma_contains_pattern_is_literal(query, content);
    if contains_text(content, query) {
        lemma_contains_pattern_covers(query, content);
    }
}

/// A query without reserved characters is handed to the store between two `%` as it
/// is.
pub proof fn lemma_plain_query_is_asked_as_it_is(query: Seq<char>)
    requires
        is_plain(query),
    ensures
        search_term(SearchStrategy::Literal, query) == seq!['%'] + query + seq!['%'],
{
    lemma_escaped_plain(query);
}

/// The values of a request that matches `term`, within a thread or not.
pub open spec fn match_params(term: Seq<char>, scope: Option<Seq<char>>) -> Seq<SqlValueView> {
    match scope {
        Some(thread_id) => seq![text_value(term), text_value(thread_id)],
        None => seq![text_value(term)],
    }
}

/// The request that matches `term` with the statement `scoped` or `global`,
/// according to whether a thread is given.
fn match_request(
    scoped: &'static str,
    global: &'static str,
    term: String,
    thread_id: Option<&str>,
) -> (r: Request)
    ensures
        r.is(
            if thread_id is Some {
                scoped@
            } else {
                global@
            },
            match_params(term@, opt_str(thread_id)),
        ),
{
    let mut params: Vec<SqlValue> = Vec::new();
    params.push(SqlValue::Text(term));
    match thread_id {
        Some(id) => {
            params.push(text_param(id));
            let r = Request { sql: scoped, params };
            assert(params_of(r.params@) =~= match_params(term@, opt_str(thread_id)));
            r
        },
        None => {
            let r = Request { sql: global, params };
            assert(params_of(r.params@) =~= match_params(term@, opt_str(thread_id)));
            r
        },
    }
}

/// The request of a search for `query` under `strategy`, within the thread
/// `thread_id` where one is given.
pub fn search_request(strategy: SearchStrategy, query: &str, thread_id: Option<&str>) -> (r:
    Request)
    ensures
        r.is(
            search_sql(strategy, thread_id is Some),
            match_params(search_term(strategy, query@), opt_str(thread_id)),
        ),
{
    match strategy {
        SearchStrategy::Indexed => match_request(
            MATCH_IN_THREAD_SQL,
            MATCH_SQL,
            String::from_str(query),
            thread_id,
        ),
        SearchStrategy::Literal => match_request(
            LIKE_IN_THREAD_SQL,
            LIKE_SQL,
            contains_pattern(query),
            thread_id,
        ),
    }
}

/// The request for the candidates that may mention `target`: the messages whose
/// content matches the pattern for "contains `@target`, taken literally".
pub fn mentions_request(thread_id: Option<&str>, target: &str) -> (r: Request)
    ensures
        r.is(
            search_sql(SearchStrategy::Literal, thread_id is Some),
            match_params(mention_pattern_of(target@), opt_str(thread_id)),
        ),
{
    match_request(LIKE_IN_THREAD_SQL, LIKE_SQL, mention_pattern(target), thread_id)
}

/// The request that replaces the content of the message `id`, with `stamp` as the
/// text of the instant of the update.
pub fn update_content_request(id: &str, content: &str, stamp: &str) -> (r: Request)
    ensures
        r.is(UPDATE_CONTENT_SQL@, seq![text_value(content@), text_value(stamp@), text_value(id@)]),
{
    let mut params: Vec<SqlValue> = Vec::new();
    params.push(text_param(content));
    params.push(text_param(stamp));
    params.push(text_param(id));
    let r = Request { sql: UPDATE_CONTENT_SQL, params };
    assert(params_of(r.params@) =~= seq![
        text_value(content@),
        text_value(stamp@),
        text_value(id@),
    ]);
    r
}

/// The request that deletes the messages of the thread `thread_id`.
pub fn delete_by_thread_request(thread_id: &str) -> (r: Request)
    ensures
        r.is(DELETE_BY_THREAD_SQL@, seq![text_value(thread_id@)]),
{
    with_text(DELETE_BY_THREAD_SQL, thread_id)
}

/// The request that deletes the messages of the session `session_id`.
pub fn delete_by_session_request(session_id: &str) -> (r: Request)
    ensures
        r.is(DELETE_BY_SESSION_SQL@, seq![text_value(session_id@)]),
{
    with_text(DELETE_BY_SESSION_SQL, session_id)
}

/// The first whole second that is not before `before`: `before` itself where it is
/// a whole second, the second after it otherwise. The store keeps instants in whole
/// seconds, and a whole second is strictly before `before` if and only if it is
/// strictly before this one.
pub open spec fn cutoff_second(before: Timestamp) -> Option<Timestamp> {
    if before.nanos == 0 {
        Some(before)
    } else if before.secs < i64::MAX {
        Some(Timestamp { secs: (before.secs + 1) as i64, nanos: 0 })
    } else {
        None
    }
}

/// The text that the store is handed as the cutoff for `before`: the stored text
/// of its cutoff second, where it has one that can be written.
pub open spec fn cutoff_text(before: Timestamp) -> Option<Seq<char>> {
    match cutoff_second(before) {
        Some(second) => stored_text(second),
        None => None,
    }
}

/// An instant kept in whole seconds is strictly before `before` exactly when its
/// second is less than the cutoff second of `before`.
pub proof fn lemma_cutoff_second_keeps_strictness(before: Timestamp, secs: i64)
    requires
        cutoff_second(before) is Some,
    ensures
        (Timestamp { secs, nanos: 0 }).before(&before) <==> secs < cutoff_second(before)->0.secs,
        cutoff_second(before)->0.nanos == 0,
{
}

/// A record kept at the second of the instant `made` is older than the cutoff
/// second of every later instant: once any time has passed, it is due.
pub proof fn lemma_later_cutoff_outdates(made: Timestamp, later: Timestamp)
    requires
        made.before(&later),
        cutoff_second(later) is Some,
    ensures
        made.secs < cutoff_second(later)->0.secs,
{
}

/// The first whole second that is not before `before`.
pub fn cutoff_of_second(before: &Timestamp) -> (r: Option<Timestamp>)
    ensures
        r == cutoff_second(*before),
{
    if before.nanos == 0 {
        Some(*before)
    } else if before.secs < i64::MAX {
        Some(Timestamp { secs: before.secs + 1, nanos: 0 })
    } else {
        None
    }
}

/// The request that deletes the messages created strictly before `before`: those
/// whose stored instant is less than the stored text of the cutoff second of
/// `before`. A cutoff that cannot be written is invalid input.
pub fn delete_older_request(before: &Timestamp) -> (r: Result<Request, DomainError>)
    ensures
        match r {
            Ok(request) => cutoff_text(*before) matches Some(cutoff) && request.is(
                DELETE_OLDER_SQL@,
                seq![text_value(cutoff)],
            ),
            Err(e) => {
                &&& cutoff_text(*before) is None
                &&& e matches DomainError::InvalidInput(why) && why@ == "timestamp out of range"@
            },
        },
{
    let written = match cutoff_of_second(before) {
        Some(second) => format_datetime(&second),
        None => None,
    };
    match written {
        Some(cutoff) => Ok(with_text(DELETE_OLDER_SQL, cutoff.as_str())),
        None => Err(DomainError::InvalidInput(String::from_str("timestamp out of range"))),
    }
}

} // verus!
