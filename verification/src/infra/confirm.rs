//! Confirming what the store returned. A query asks the store for candidates; the
//! functions here read the rows, drop those that do not meet the condition asked
//! for, and put the rest in order. What they promise of their answer holds of every
//! set of rows.

use vstd::prelude::*;
use crate::domain::entity::{Message, Thread, ThreadStatus};
use crate::domain::error::DomainError;
use crate::domain::mention::{filter_mention_boundary, mentions_name};
use crate::domain::ordering::{is_ordered, is_presentation, lemma_presentation_draws, order_by_time};
use crate::domain::repository::{all_mention, all_with_status, is_resolution, within};
use crate::domain::resolver::{
    begins_with, is_not_found, is_resolved_among, not_found, resolve_among, RecordKind,
};
use crate::domain::select::{keep, lemma_drawn_from_kept, Criterion};
use crate::domain::text::{chars_of, contains_chars, contains_text, opt_str, same_chars};
use crate::infra::codec::{
    columns_of, decode_message, decode_thread, message_of_row, message_row_defect,
    thread_of_row, thread_row_defect,
};

verus! {

/// How the store is asked for the messages that match a query.
#[derive(Debug, Clone, Copy, PartialEq, Eq, Structural)]
pub enum SearchStrategy {
    /// The store's full-text index decides what matches; the query is in its syntax.
    Indexed,
    /// The query is a text that the content must contain, letter for letter.
    Literal,
}

/// What a search does once the index has answered.
pub enum SearchNext {
    /// The index answered: these messages are the result.
    Done(Vec<Message>),
    /// The index failed: the search is made again under the literal strategy, and
    /// what that attempt answers is the result.
    TryLiteral,
}

/// What a search does with the answer `first` of the indexed attempt: it is done
/// with the messages found, and on any failure it tries the literal strategy. No
/// failure of the index is ever the result of a search.
pub fn after_indexed(first: Result<Vec<Message>, DomainError>) -> (next: SearchNext)
    ensures
        match first {
            Ok(v) => next == SearchNext::Done(v),
            Err(_) => next == SearchNext::TryLiteral,
        },
{
    match first {
        Ok(v) => SearchNext::Done(v),
        Err(_) => SearchNext::TryLiteral,
    }
}

/// The messages of the thread `thread_id`.
pub open spec fn in_thread(thread_id: Seq<char>) -> spec_fn(Message) -> bool {
    |m: Message| m.thread_id@ == thread_id
}

/// The messages whose content contains `query`, letter for letter.
pub open spec fn contains_query(query: Seq<char>) -> spec_fn(Message) -> bool {
    |m: Message| contains_text(m.content@, query)
}

/// The threads with the status `status`.
pub open spec fn has_status(status: ThreadStatus) -> spec_fn(Thread) -> bool {
    |t: Thread| t.status == status
}

/// The condition "the message belongs to this thread".
pub struct InThread {
    pub thread_id: Vec<char>,
}

impl Criterion<Message> for InThread {
    open spec fn accepts(&self) -> spec_fn(Message) -> bool {
        in_thread(self.thread_id@)
    }

    fn test(&self, item: &Message) -> (r: bool) {
        let id = chars_of(item.thread_id.as_str());
        same_chars(&id, &self.thread_id)
    }
}

/// The condition "the content contains this text, letter for letter".
pub struct Containing {
    pub needle: Vec<char>,
}

impl Criterion<Message> for Containing {
    open spec fn accepts(&self) -> spec_fn(Message) -> bool {
        contains_query(self.needle@)
    }

    fn test(&self, item: &Message) -> (r: bool) {
        let content = chars_of(item.content.as_str());
        contains_chars(&content, &self.needle)
    }
}

/// The condition "the thread has this status".
pub struct WithStatus {
    pub status: ThreadStatus,
}

impl Criterion<Thread> for WithStatus {
    open spec fn accepts(&self) -> spec_fn(Thread) -> bool {
        has_status(self.status)
    }

    fn test(&self, item: &Thread) -> (r: bool) {
        item.status == self.status
    }
}

/// The messages of `v` that belong to the thread `scope`; all of `v` without one.
pub open spec fn scoped(v: Seq<Message>, scope: Option<Seq<char>>) -> Seq<Message> {
    match scope {
        Some(thread_id) => v.filter(in_thread(thread_id)),
        None => v,
    }
}

/// The messages of `v` whose content contains `query`, letter for letter.
pub open spec fn containing(v: Seq<Message>, query: Seq<char>) -> Seq<Message> {
    v.filter(contains_query(query))
}

/// The threads of `v` with the status `wanted`; all of `v` without one.
pub open spec fn with_status(v: Seq<Thread>, wanted: Option<ThreadStatus>) -> Seq<Thread> {
    match wanted {
        Some(status) => v.filter(has_status(status)),
        None => v,
    }
}

/// Every message of `v` contains `query`, letter for letter.
pub open spec fn all_contain(v: Seq<Message>, query: Seq<char>) -> bool {
    forall|i: int| 0 <= i < v.len() ==> contains_text((#[trigger] v[i]).content@, query)
}

/// What is drawn from the messages of a scope lies within the scope.
pub proof fn lemma_drawn_from_scope(v: Seq<Message>, scope: Option<Seq<char>>, out: Seq<Message>)
    requires
        forall|x: Message| out.contains(x) ==> scoped(v, scope).contains(x),
    ensures
        within(out, scope),
{
    if let Some(thread_id) = scope {
        lemma_drawn_from_kept(v, in_thread(thread_id), out);
    }
}

/// What is drawn from the threads of a status has that status.
pub proof fn lemma_drawn_from_status(
    v: Seq<Thread>,
    wanted: Option<ThreadStatus>,
    out: Seq<Thread>,
)
    requires
        forall|x: Thread| out.contains(x) ==> with_status(v, wanted).contains(x),
    ensures
        all_with_status(out, wanted),
{
    if let Some(status) = wanted {
        lemma_drawn_from_kept(v, has_status(status), out);
    }
}

/// The messages of `messages` that belong to the thread `thread_id`, in their
/// order; all of them where no thread is given.
pub fn scope_to(messages: Vec<Message>, thread_id: Option<&str>) -> (kept: Vec<Message>)
    ensures
        kept@ == scoped(messages@, opt_str(thread_id)),
{
    match thread_id {
        Some(id) => {
            let criterion = InThread { thread_id: chars_of(id) };
            keep(messages, &criterion)
        },
        None => messages,
    }
}

/// The messages of `messages` whose content contains `query` letter for letter, in
/// their order.
pub fn keep_containing(messages: Vec<Message>, query: &str) -> (kept: Vec<Message>)
    ensures
        kept@ == containing(messages@, query@),
{
    let criterion = Containing { needle: chars_of(query) };
    keep(messages, &criterion)
}

/// The threads of `threads` with the status `wanted`, in their order; all of them
/// where no status is given.
pub fn keep_status(threads: Vec<Thread>, wanted: Option<ThreadStatus>) -> (kept: Vec<Thread>)
    ensures
        kept@ == with_status(threads@, wanted),
{
    match wanted {
        Some(status) => {
            let criterion = WithStatus { status };
            keep(threads, &criterion)
        },
        None => threads,
    }
}

/// Every row has `columns` columns.
pub open spec fn have_width(rows: Seq<Vec<Option<String>>>, columns: nat) -> bool {
    forall|i: int| 0 <= i < rows.len() ==> (#[trigger] rows[i])@.len() == columns
}

/// The store failed before it returned anything: `r` is a store error.
pub open spec fn store_failed<T>(r: Result<T, DomainError>) -> bool {
    r matches Err(e) && e is Database
}

/// `d` is what the rows denote: one message for each row, in their order.
pub open spec fn reads_as(rows: Seq<Vec<Option<String>>>, d: Seq<Message>) -> bool {
    &&& d.len() == rows.len()
    &&& forall|i: int|
        0 <= i < d.len() ==> message_row_defect(columns_of(rows[i]@)) is None && (#[trigger] d[i])@
            == message_of_row(columns_of(rows[i]@))
}

/// Some row cannot be read as a message.
pub open spec fn some_row_unreadable(rows: Seq<Vec<Option<String>>>) -> bool {
    exists|i: int|
        0 <= i < rows.len() && message_row_defect(columns_of(#[trigger] rows[i]@)) is Some
}

/// `d` is what the rows denote: one thread for each row, in their order.
pub open spec fn reads_as_threads(rows: Seq<Vec<Option<String>>>, d: Seq<Thread>) -> bool {
    &&& d.len() == rows.len()
    &&& forall|i: int|
        0 <= i < d.len() ==> thread_row_defect(columns_of(rows[i]@)) is None && (#[trigger] d[i])@
            == thread_of_row(columns_of(rows[i]@))
}

/// Some row cannot be read as a thread.
pub open spec fn some_thread_row_unreadable(rows: Seq<Vec<Option<String>>>) -> bool {
    exists|i: int|
        0 <= i < rows.len() && thread_row_defect(columns_of(#[trigger] rows[i]@)) is Some
}

/// The messages that the rows denote, in their order, or the store error for the
/// first row that cannot be read.
pub fn decode_messages(rows: Vec<Vec<Option<String>>>) -> (r: Result<Vec<Message>, DomainError>)
    ensures
        match r {
            Ok(v) => reads_as(rows@, v@),
            Err(e) => e is Database && some_row_unreadable(rows@),
        },
{
    let mut out: Vec<Message> = Vec::new();
    for row in it: rows
        invariant
            it.seq() == rows@,
            out@.len() == it.index(),
            forall|i: int|
                0 <= i < out@.len() ==> message_row_defect(columns_of(rows@[i]@)) is None && (
                #[trigger] out@[i])@ == message_of_row(columns_of(rows@[i]@)),
    {
        match decode_message(row) {
            Ok(m) => {
                out.push(m);
            },
            Err(e) => {
                assert(rows@[it.index() as int] == row);
                return Err(e);
            },
        }
    }
    Ok(out)
}

/// The threads that the rows denote, in their order, or the store error for the
/// first row that cannot be read.
pub fn decode_threads(rows: Vec<Vec<Option<String>>>) -> (r: Result<Vec<Thread>, DomainError>)
    ensures
        match r {
            Ok(v) => reads_as_threads(rows@, v@),
            Err(e) => e is Database && some_thread_row_unreadable(rows@),
        },
{
    let mut out: Vec<Thread> = Vec::new();
    for row in it: rows
        invariant
            it.seq() == rows@,
            out@.len() == it.index(),
            forall|i: int|
                0 <= i < out@.len() ==> thread_row_defect(columns_of(rows@[i]@)) is None && (
                #[trigger] out@[i])@ == thread_of_row(columns_of(rows@[i]@)),
    {
        match decode_thread(row) {
            Ok(t) => {
                out.push(t);
            },
            Err(e) => {
                assert(rows@[it.index() as int] == row);
                return Err(e);
            },
        }
    }
    Ok(out)
}

/// Every row holds one column, and that column holds a text.
pub open spec fn are_id_rows(rows: Seq<Vec<Option<String>>>) -> bool {
    forall|i: int|
        0 <= i < rows.len() ==> (#[trigger] rows[i])@.len() == 1 && rows[i]@[0] is Some
}

/// `ids` are the identifiers that the rows hold, in their order.
pub open spec fn holds_ids(rows: Seq<Vec<Option<String>>>, ids: Seq<String>) -> bool {
    &&& ids.len() == rows.len()
    &&& forall|i: int| 0 <= i < ids.len() ==> rows[i]@[0] == Some(#[trigger] ids[i])
}

/// The identifiers that one-column rows hold, in their order; a row of another
/// shape is a store error.
pub fn decode_ids(rows: Vec<Vec<Option<String>>>) -> (r: Result<Vec<String>, DomainError>)
    ensures
        match r {
            Ok(ids) => are_id_rows(rows@) && holds_ids(rows@, ids@),
            Err(e) => e is Database && !are_id_rows(rows@),
        },
{
    let mut out: Vec<String> = Vec::new();
    for row in it: rows
        invariant
            it.seq() == rows@,
            out@.len() == it.index(),
            forall|i: int|
                0 <= i < out@.len() ==> (#[trigger] rows@[i])@.len() == 1 && rows@[i]@[0] == Some(
                    out@[i],
                ),
    {
        let mut row = row;
        assert(rows@[it.index() as int] == row);
        if row.len() != 1 {
            return Err(DomainError::Database(String::from_str("unexpected number of columns")));
        }
        match row.pop() {
            Some(Some(id)) => {
                out.push(id);
            },
            _ => {
                return Err(DomainError::Database(String::from_str("required column is null")));
            },
        }
    }
    Ok(out)
}

/// What a change that touched `affected` rows answers: the not-found error for `id`
/// when it touched none, success otherwise.
pub fn change_outcome(affected: usize, kind: RecordKind, id: &str) -> (r: Result<(), DomainError>)
    ensures
        affected > 0 ==> r is Ok,
        affected == 0 ==> (r matches Err(e) && is_not_found(e, kind, id@)),
{
    if affected == 0 {
        Err(not_found(kind, id))
    } else {
        Ok(())
    }
}

/// The candidates among which a search looks: under the literal strategy those
/// whose content contains the query, under the indexed strategy all that the index
/// returned; of one thread where one is given.
pub open spec fn search_candidates(
    d: Seq<Message>,
    strategy: SearchStrategy,
    query: Seq<char>,
    scope: Option<Seq<char>>,
) -> Seq<Message> {
    scoped(
        match strategy {
            SearchStrategy::Literal => containing(d, query),
            SearchStrategy::Indexed => d,
        },
        scope,
    )
}

/// The two strategies look among the same candidates when the store returned only
/// messages that contain the query: for such rows it makes no difference to the
/// answer which strategy served the search.
pub proof fn lemma_strategies_agree_on_literal_rows(
    d: Seq<Message>,
    query: Seq<char>,
    scope: Option<Seq<char>>,
)
    requires
        all_contain(d, query),
    ensures
        search_candidates(d, SearchStrategy::Literal, query, scope) == search_candidates(
            d,
            SearchStrategy::Indexed,
            query,
            scope,
        ),
{
    lemma_keeping_all(d, contains_query(query));
}

/// Keeping what meets a condition that every record meets keeps every record.
proof fn lemma_keeping_all<T>(v: Seq<T>, pred: spec_fn(T) -> bool)
    requires
        forall|i: int| 0 <= i < v.len() ==> pred(#[trigger] v[i]),
    ensures
        v.filter(pred) == v,
    decreases v.len(),
{
    reveal(Seq::filter);
    if v.len() > 0 {
        let front = v.drop_last();
        assert forall|i: int| 0 <= i < front.len() implies pred(#[trigger] front[i]) by {
            assert(front[i] == v[i]);
        }
        lemma_keeping_all(front, pred);
        assert(front.push(v.last()) =~= v);
    }
}

/// The candidates that mention `target`, of one thread where one is given.
pub open spec fn mention_candidates(
    d: Seq<Message>,
    target: Seq<char>,
    scope: Option<Seq<char>>,
) -> Seq<Message> {
    scoped(d.filter(mentions_name(target)), scope)
}

/// The first `limit` of `v`, or all of `v` where it has no more.
pub open spec fn first_of<T>(v: Seq<T>, limit: nat) -> Seq<T> {
    if limit < v.len() {
        v.take(limit as int)
    } else {
        v
    }
}

/// The first of `v` under the identifier `id`, from `from` on.
pub open spec fn first_with_id(v: Seq<Message>, id: Seq<char>, from: int) -> Option<Message>
    decreases v.len() - from,
{
    if from < 0 || from >= v.len() {
        None
    } else if v[from].id@ == id {
        Some(v[from])
    } else {
        first_with_id(v, id, from + 1)
    }
}

/// The first of `v` under the identifier `id`, from `from` on.
pub open spec fn first_thread_with_id(v: Seq<Thread>, id: Seq<char>, from: int) -> Option<Thread>
    decreases v.len() - from,
{
    if from < 0 || from >= v.len() {
        None
    } else if v[from].id@ == id {
        Some(v[from])
    } else {
        first_thread_with_id(v, id, from + 1)
    }
}

/// `r` is what reading the messages of the thread `thread_id` answers when the store
/// returned `rows`: the messages that the rows denote and that belong to the
/// thread, oldest first; or the store error for a row that cannot be read.
pub open spec fn confirms_thread_messages(
    r: Result<Vec<Message>, DomainError>,
    rows: Seq<Vec<Option<String>>>,
    thread_id: Seq<char>,
) -> bool {
    match r {
        Ok(v) => {
            &&& exists|d: Seq<Message>| #[trigger]
                reads_as(rows, d) && is_presentation(v@, scoped(d, Some(thread_id)), false)
            &&& within(v@, Some(thread_id))
        },
        Err(e) => e is Database && some_row_unreadable(rows),
    }
}

/// The messages of the thread `thread_id` among what the store returned, oldest
/// first.
pub fn thread_messages(rows: Vec<Vec<Option<String>>>, thread_id: &str) -> (r: Result<
    Vec<Message>,
    DomainError,
>)
    ensures
        confirms_thread_messages(r, rows@, thread_id@),
{
    let found = match decode_messages(rows) {
        Ok(m) => m,
        Err(e) => { return Err(e); },
    };
    let kept = scope_to(found, Some(thread_id));
    let out = order_by_time(kept, false);
    proof {
        lemma_presentation_draws(out@, kept@, false);
        lemma_drawn_from_scope(found@, Some(thread_id@), out@);
        assert(reads_as(rows@, found@));
    }
    Ok(out)
}

/// `r` is what reading the newest messages answers when the store returned `rows`:
/// the messages that the rows denote, the newest first, and of those the first
/// `limit`; or the store error for a row that cannot be read.
pub open spec fn confirms_recent_messages(r: Result<Vec<Message>, DomainError>, rows: Seq<Vec<Option<String>>>, limit: usize) -> bool {
    match r {
        Ok(v) => {
            &&& exists|d: Seq<Message>, p: Seq<Message>| #[trigger]
                reads_as(rows, d) && #[trigger] is_presentation(p, d, true) && v@ == first_of(
                    p,
                    limit as nat,
                )
            &&& is_ordered(v@, true)
            &&& v@.len() <= limit
        },
        Err(e) => e is Database && some_row_unreadable(rows),
    }
}

/// At most `limit` of the messages that the store returned, the newest first.
pub fn recent_messages(rows: Vec<Vec<Option<String>>>, limit: usize) -> (r: Result<
    Vec<Message>,
    DomainError,
>)
    ensures
        confirms_recent_messages(r, rows@, limit),
{
    let found = match decode_messages(rows) {
        Ok(m) => m,
        Err(e) => { return Err(e); },
    };
    let mut out = order_by_time(found, true);
    let ghost p = out@;
    if out.len() > limit {
        out.truncate(limit);
    }
    proof {
        assert(reads_as(rows@, found@) && is_presentation(p, found@, true));
        assert(out@ == first_of(p, limit as nat));
    }
    Ok(out)
}

/// `r` is what a search under `strategy` answers when the store returned `rows`: the
/// candidates among the messages that the rows denote, the newest first; or the
/// store error for a row that cannot be read.
pub open spec fn confirms_search(
    r: Result<Vec<Message>, DomainError>,
    rows: Seq<Vec<Option<String>>>,
    strategy: SearchStrategy,
    query: Seq<char>,
    scope: Option<Seq<char>>,
) -> bool {
    match r {
        Ok(v) => {
            &&& exists|d: Seq<Message>| #[trigger]
                reads_as(rows, d) && is_presentation(
                    v@,
                    search_candidates(d, strategy, query, scope),
                    true,
                )
            &&& is_ordered(v@, true)
            &&& within(v@, scope)
            &&& strategy == SearchStrategy::Literal ==> all_contain(v@, query)
        },
        Err(e) => e is Database && some_row_unreadable(rows),
    }
}

/// The messages that a search under `strategy` finds among what the store
/// returned, the newest first.
pub fn search_hits(
    rows: Vec<Vec<Option<String>>>,
    strategy: SearchStrategy,
    query: &str,
    thread_id: Option<&str>,
) -> (r: Result<Vec<Message>, DomainError>)
    ensures
        confirms_search(r, rows@, strategy, query@, opt_str(thread_id)),
{
    let found = match decode_messages(rows) {
        Ok(m) => m,
        Err(e) => { return Err(e); },
    };
    let ghost d = found@;
    let confirmed = match strategy {
        SearchStrategy::Literal => keep_containing(found, query),
        SearchStrategy::Indexed => found,
    };
    let kept = scope_to(confirmed, thread_id);
    let out = order_by_time(kept, true);
    proof {
        lemma_presentation_draws(out@, kept@, true);
        lemma_drawn_from_scope(confirmed@, opt_str(thread_id), out@);
        if strategy == SearchStrategy::Literal {
            assert forall|x: Message| out@.contains(x) implies containing(d, query@).contains(
                x,
            ) by {
                if opt_str(thread_id) is Some {
                    confirmed@.lemma_filter_contains_rev(in_thread(opt_str(thread_id)->0), x);
                }
            }
            lemma_drawn_from_kept(d, contains_query(query@), out@);
        }
        assert(reads_as(rows@, d));
    }
    Ok(out)
}

/// `r` is what looking for the mentions of `target` answers when the store returned
/// `rows`: the messages that the rows denote and that mention `target`, the newest
/// first; or the store error for a row that cannot be read.
pub open spec fn confirms_mentions(
    r: Result<Vec<Message>, DomainError>,
    rows: Seq<Vec<Option<String>>>,
    scope: Option<Seq<char>>,
    target: Seq<char>,
) -> bool {
    match r {
        Ok(v) => {
            &&& exists|d: Seq<Message>| #[trigger]
                reads_as(rows, d) && is_presentation(
                    v@,
                    mention_candidates(d, target, scope),
                    true,
                )
            &&& is_ordered(v@, true)
            &&& within(v@, scope)
            &&& all_mention(v@, target)
        },
        Err(e) => e is Database && some_row_unreadable(rows),
    }
}

/// The messages that mention `target` among what the store returned, the newest
/// first.
pub fn mention_hits(rows: Vec<Vec<Option<String>>>, thread_id: Option<&str>, target: &str) -> (r:
    Result<Vec<Message>, DomainError>)
    ensures
        confirms_mentions(r, rows@, opt_str(thread_id), target@),
{
    let found = match decode_messages(rows) {
        Ok(m) => m,
        Err(e) => { return Err(e); },
    };
    let ghost d = found@;
    let confirmed = filter_mention_boundary(found, target);
    let kept = scope_to(confirmed, thread_id);
    let out = order_by_time(kept, true);
    proof {
        lemma_presentation_draws(out@, kept@, true);
        lemma_drawn_from_scope(confirmed@, opt_str(thread_id), out@);
        assert forall|x: Message| out@.contains(x) implies confirmed@.contains(x) by {
            if opt_str(thread_id) is Some {
                confirmed@.lemma_filter_contains_rev(in_thread(opt_str(thread_id)->0), x);
            }
        }
        lemma_drawn_from_kept(d, mentions_name(target@), out@);
        assert(reads_as(rows@, d));
    }
    Ok(out)
}

/// `r` is what listing the threads of the status `wanted` answers when the store
/// returned `rows`: the threads that the rows denote and that have the status, the
/// most recently updated first; or the store error for a row that cannot be read.
pub open spec fn confirms_threads(
    r: Result<Vec<Thread>, DomainError>,
    rows: Seq<Vec<Option<String>>>,
    wanted: Option<ThreadStatus>,
) -> bool {
    match r {
        Ok(v) => {
            &&& exists|d: Seq<Thread>| #[trigger]
                reads_as_threads(rows, d) && is_presentation(v@, with_status(d, wanted), true)
            &&& is_ordered(v@, true)
            &&& all_with_status(v@, wanted)
        },
        Err(e) => e is Database && some_thread_row_unreadable(rows),
    }
}

/// The threads of the status `wanted` among what the store returned, the most
/// recently updated first.
pub fn listed_threads(rows: Vec<Vec<Option<String>>>, wanted: Option<ThreadStatus>) -> (r: Result<
    Vec<Thread>,
    DomainError,
>)
    ensures
        confirms_threads(r, rows@, wanted),
{
    let threads = match decode_threads(rows) {
        Ok(t) => t,
        Err(e) => { return Err(e); },
    };
    let kept = keep_status(threads, wanted);
    let out = order_by_time(kept, true);
    proof {
        lemma_presentation_draws(out@, kept@, true);
        lemma_drawn_from_status(threads@, wanted, out@);
        assert(reads_as_threads(rows@, threads@));
    }
    Ok(out)
}

/// `r` is what looking up the message `id` answers when the store returned `rows`:
/// the first message under that identifier among those that the rows denote, if
/// there is one; or the store error for a row that cannot be read.
pub open spec fn confirms_message_with_id(
    r: Result<Option<Message>, DomainError>,
    rows: Seq<Vec<Option<String>>>,
    id: Seq<char>,
) -> bool {
    match r {
        Ok(found) => {
            &&& exists|d: Seq<Message>| #[trigger]
                reads_as(rows, d) && found == first_with_id(d, id, 0)
            &&& found matches Some(m) ==> m.id@ == id
        },
        Err(e) => e is Database && some_row_unreadable(rows),
    }
}

/// The first message under the identifier `id` among what the store returned.
pub fn message_with_id(rows: Vec<Vec<Option<String>>>, id: &str) -> (r: Result<
    Option<Message>,
    DomainError,
>)
    ensures
        confirms_message_with_id(r, rows@, id@),
{
    let items = match decode_messages(rows) {
        Ok(m) => m,
        Err(e) => { return Err(e); },
    };
    let ghost d = items@;
    let wanted = chars_of(id);
    for m in it: items
        invariant
            wanted@ == id@,
            it.seq() == d,
            reads_as(rows@, d),
            first_with_id(d, id@, 0) == first_with_id(d, id@, it.index() as int),
    {
        let have = chars_of(m.id.as_str());
        if same_chars(&have, &wanted) {
            assert(first_with_id(d, id@, it.index() as int) == Some(m));
            return Ok(Some(m));
        }
    }
    Ok(None)
}

/// `r` is what looking up the thread `id` answers when the store returned `rows`:
/// the first thread under that identifier among those that the rows denote, if
/// there is one; or the store error for a row that cannot be read.
pub open spec fn confirms_thread_with_id(
    r: Result<Option<Thread>, DomainError>,
    rows: Seq<Vec<Option<String>>>,
    id: Seq<char>,
) -> bool {
    match r {
        Ok(found) => {
            &&& exists|d: Seq<Thread>| #[trigger]
                reads_as_threads(rows, d) && found == first_thread_with_id(d, id, 0)
            &&& found matches Some(t) ==> t.id@ == id
        },
        Err(e) => e is Database && some_thread_row_unreadable(rows),
    }
}

/// The first thread under the identifier `id` among what the store returned.
pub fn thread_with_id(rows: Vec<Vec<Option<String>>>, id: &str) -> (r: Result<
    Option<Thread>,
    DomainError,
>)
    ensures
        confirms_thread_with_id(r, rows@, id@),
{
    let items = match decode_threads(rows) {
        Ok(t) => t,
        Err(e) => { return Err(e); },
    };
    let ghost d = items@;
    let wanted = chars_of(id);
    for t in it: items
        invariant
            wanted@ == id@,
            it.seq() == d,
            reads_as_threads(rows@, d),
            first_thread_with_id(d, id@, 0) == first_thread_with_id(d, id@, it.index() as int),
    {
        let have = chars_of(t.id.as_str());
        if same_chars(&have, &wanted) {
            assert(first_thread_with_id(d, id@, it.index() as int) == Some(t));
            return Ok(Some(t));
        }
    }
    Ok(None)
}

/// The one identifier that `short_id` names among what the store returned.
pub fn resolved_id(rows: Vec<Vec<Option<String>>>, short_id: &str, kind: RecordKind) -> (r: Result<
    String,
    DomainError,
>)
    ensures
        is_resolution(r, kind, short_id@),
        !are_id_rows(rows@) ==> r matches Err(DomainError::Database(_)),
        are_id_rows(rows@) ==> exists|ids: Seq<String>| #[trigger]
            holds_ids(rows@, ids) && is_resolved_among(r, ids, short_id@, kind),
{
    let ids = match decode_ids(rows) {
        Ok(ids) => ids,
        Err(e) => { return Err(e); },
    };
    let r = resolve_among(ids, short_id, kind);
    proof {
        if r is Ok {
            ids@.lemma_filter_pred(begins_with(short_id@), 0);
        }
    }
    r
}

} // verus!
