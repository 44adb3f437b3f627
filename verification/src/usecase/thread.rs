//! Creating, listing, closing, reopening and deleting threads, and storing what was
//! fetched from a URL as a thread of its own.

use vstd::prelude::*;
use crate::domain::entity::{
    Message, MessageView, Role, Thread, ThreadPhase, ThreadStatus, ThreadView,
};
use crate::domain::error::DomainError;
use crate::domain::ident::new_id;
use crate::domain::instant::{now, Timestamp};
use crate::domain::ordering::is_ordered;
use crate::domain::repository::{all_with_status, is_resolution, MessageRepository, ThreadRepository};
use crate::domain::resolver::RecordKind;
use crate::domain::text::{opt_str, owned, starts_with};
use crate::infra::markdown::{html_to_markdown, stored_rendering};

verus! {

/// The provenance tag of content fetched from a URL.
pub const SOURCE_URL_FETCH: &'static str = "url-fetch";

/// The thread that is created under the identifier `id` at the instant `at`: open,
/// without a phase or a name.
pub open spec fn new_thread(
    id: Seq<char>,
    at: Timestamp,
    title: Seq<char>,
    source_url: Option<Seq<char>>,
) -> ThreadView {
    ThreadView {
        id,
        name: None,
        title,
        source_url,
        status: ThreadStatus::Open,
        phase: None,
        created_at: at,
        updated_at: at,
    }
}

/// The title of a thread made from a URL: the title given, or the URL itself.
pub open spec fn fetched_title(url: Seq<char>, title: Option<Seq<char>>) -> Seq<char> {
    match title {
        Some(t) => t,
        None => url,
    }
}

/// The message that holds fetched content, in the thread `thread_id`.
pub open spec fn fetched_message(
    id: Seq<char>,
    at: Timestamp,
    thread_id: Seq<char>,
    sender: Option<Seq<char>>,
    content: Seq<char>,
) -> MessageView {
    MessageView {
        id,
        thread_id,
        session_id: None,
        sender,
        role: Role::System,
        content,
        metadata: None,
        parent_id: None,
        source: Some(SOURCE_URL_FETCH@),
        created_at: at,
        updated_at: at,
    }
}

/// The thread that is created under the identifier `id` at the instant `at`.
pub fn compose_thread(id: String, at: Timestamp, title: &str, source_url: Option<&str>) -> (t:
    Thread)
    ensures
        t@ == new_thread(id@, at, title@, opt_str(source_url)),
        t.wf(),
{
    Thread {
        id,
        name: None,
        title: String::from_str(title),
        source_url: owned(source_url),
        status: ThreadStatus::Open,
        phase: None,
        created_at: at,
        updated_at: at,
    }
}

/// The message that holds fetched content.
pub fn compose_fetched_message(
    id: String,
    at: Timestamp,
    thread_id: &str,
    sender: Option<&str>,
    content: String,
) -> (m: Message)
    ensures
        m@ == fetched_message(id@, at, thread_id@, opt_str(sender), content@),
        m.wf(),
{
    Message {
        id,
        thread_id: String::from_str(thread_id),
        session_id: None,
        sender: owned(sender),
        role: Role::System,
        content,
        metadata: None,
        parent_id: None,
        source: Some(String::from_str(SOURCE_URL_FETCH)),
        created_at: at,
        updated_at: at,
    }
}

/// The answer of a store of threads to a lookup shows a closed thread: the thread
/// was found and its status is closed. A thread that was not found, or a lookup
/// that failed, shows none.
pub open spec fn shows_closed(found: Result<Option<Thread>, DomainError>) -> bool {
    found matches Ok(Some(t)) && t.status == ThreadStatus::Closed
}

/// Whether the answer `found` of a lookup shows a closed thread.
pub fn found_closed(found: &Result<Option<Thread>, DomainError>) -> (r: bool)
    ensures
        r == shows_closed(*found),
{
    match found {
        Ok(Some(t)) => t.status == ThreadStatus::Closed,
        _ => false,
    }
}

/// The operations on threads, over any store of threads and any store of messages.
pub struct ThreadUseCase<T: ThreadRepository, M: MessageRepository> {
    pub thread_repo: T,
    pub message_repo: M,
}

impl<T: ThreadRepository, M: MessageRepository> ThreadUseCase<T, M> {
    /// The operations over the two stores.
    pub fn new(thread_repo: T, message_repo: M) -> (r: Self)
        ensures
            r.thread_repo == thread_repo,
            r.message_repo == message_repo,
    {
        ThreadUseCase { thread_repo, message_repo }
    }

    /// `full` is the identifier with which the store of threads answered when it
    /// was asked which thread `id` names.
    pub open spec fn resolves(&self, id: &str, full: &str) -> bool {
        exists|found: String|
            found@ == full@ && #[trigger] call_ensures(
                T::resolve_short_id,
                (&self.thread_repo, id),
                Ok::<String, DomainError>(found),
            )
    }

    /// `e` is the error with which the store of threads answered when it was asked
    /// which thread `id` names.
    pub open spec fn fails_to_resolve(&self, id: &str, e: DomainError) -> bool {
        call_ensures(T::resolve_short_id, (&self.thread_repo, id), Err::<String, DomainError>(e))
    }

    /// `r` is what the store of threads answered when it was asked to write a thread
    /// that is new, open and titled `title`, with the source `source_url`. The
    /// thread written is `made` where one is given.
    pub open spec fn answers_create(
        &self,
        title: Seq<char>,
        source_url: Option<Seq<char>>,
        made: Option<Thread>,
        r: Result<(), DomainError>,
    ) -> bool {
        exists|t: Thread|
            {
                &&& made matches Some(given) ==> t == given
                &&& t@ == new_thread(t.id@, t.created_at, title, source_url)
                &&& #[trigger] call_ensures(T::create, (&self.thread_repo, &t), r)
            }
    }

    /// `r` is what changing the status of the thread that `id` names answers: the
    /// error of resolving `id`, and then nothing is changed; or what the store of
    /// threads answered when it was asked to set the status of the thread that it
    /// had resolved `id` to.
    pub open spec fn answers_status(
        &self,
        id: &str,
        status: ThreadStatus,
        r: Result<(), DomainError>,
    ) -> bool {
        ||| (r matches Err(e) && self.fails_to_resolve(id, e))
        ||| exists|full: &str| #[trigger]
            self.resolves(id, full) && call_ensures(
                T::update_status,
                (&self.thread_repo, full, status),
                r,
            )
    }

    /// `r` is what changing the phase of the thread that `id` names answers: the
    /// error of resolving `id`, and then nothing is changed; or what the store of
    /// threads answered when it was asked to set the phase of the thread that it had
    /// resolved `id` to.
    pub open spec fn answers_phase(
        &self,
        id: &str,
        phase: Option<ThreadPhase>,
        r: Result<(), DomainError>,
    ) -> bool {
        ||| (r matches Err(e) && self.fails_to_resolve(id, e))
        ||| exists|full: &str| #[trigger]
            self.resolves(id, full) && call_ensures(
                T::update_phase,
                (&self.thread_repo, full, phase),
                r,
            )
    }

    /// `r` is what deleting the messages of the thread `full` and then the thread
    /// answers: the error of the store of messages, and then the thread stays; or
    /// what the store of threads answered when it was asked to delete `full`, after
    /// the store of messages had answered with a number.
    pub open spec fn answers_cascade(&self, full: &str, r: Result<(), DomainError>) -> bool {
        ||| (r matches Err(e) && call_ensures(
            M::delete_by_thread,
            (&self.message_repo, full),
            Err::<usize, DomainError>(e),
        ))
        ||| exists|n: usize|
            {
                &&& #[trigger] call_ensures(
                    M::delete_by_thread,
                    (&self.message_repo, full),
                    Ok::<usize, DomainError>(n),
                )
                &&& call_ensures(T::delete, (&self.thread_repo, full), r)
            }
    }

    /// `r` is what deleting the thread that `id` names answers: the error of
    /// resolving `id`, and then nothing is deleted; or what deleting the messages of
    /// the thread that `id` was resolved to, and then that thread, answers.
    pub open spec fn answers_delete(&self, id: &str, r: Result<(), DomainError>) -> bool {
        ||| (r matches Err(e) && self.fails_to_resolve(id, e))
        ||| exists|full: &str| #[trigger] self.resolves(id, full) && self.answers_cascade(full, r)
    }

    /// `stored` is what the store of messages answered when it was asked to write
    /// the message that holds `content`, fetched for the thread `thread`.
    pub open spec fn answers_fetched(
        &self,
        thread: Thread,
        sender: Option<Seq<char>>,
        content: Seq<char>,
        stored: Result<(), DomainError>,
    ) -> bool {
        exists|m: Message|
            {
                &&& m@ == fetched_message(m.id@, thread.created_at, thread.id@, sender, content)
                &&& #[trigger] call_ensures(M::insert, (&self.message_repo, &m), stored)
            }
    }

    /// `r` is what storing a fetched document answers: the error of the store of
    /// threads, and then no message is written; the error of the store of messages,
    /// which it gave after the thread was written; or the thread, after both stores
    /// answered with success.
    pub open spec fn answers_fetch(
        &self,
        title: Seq<char>,
        url: Seq<char>,
        sender: Option<Seq<char>>,
        content: Seq<char>,
        r: Result<Thread, DomainError>,
    ) -> bool {
        match r {
            Ok(t) => self.answers_create(title, Some(url), Some(t), Ok(())) && self.answers_fetched(
                t,
                sender,
                content,
                Ok(()),
            ),
            Err(e) => {
                ||| self.answers_create(title, Some(url), None, Err(e))
                ||| exists|t: Thread| #[trigger]
                    self.answers_create(title, Some(url), Some(t), Ok(())) && self.answers_fetched(
                        t,
                        sender,
                        content,
                        Err(e),
                    )
            },
        }
    }

    /// Creates an open thread with the given title and returns it as it was written.
    pub fn create(&self, title: &str) -> (r: Result<Thread, DomainError>)
        ensures
            match r {
                Ok(t) => t@ == new_thread(t.id@, t.created_at, title@, None) && self.answers_create(
                    title@,
                    None,
                    Some(t),
                    Ok(()),
                ),
                Err(e) => (e is Database || e is InvalidInput) && self.answers_create(
                    title@,
                    None,
                    None,
                    Err(e),
                ),
            },
    {
        let thread = compose_thread(new_id(), now(), title, None);
        let written = self.thread_repo.create(&thread);
        match written {
            Ok(done) => {
                assert(done == ());
                Ok(thread)
            },
            Err(e) => Err(e),
        }
    }

    /// All threads, the most recently updated first.
    pub fn list(&self) -> (r: Result<Vec<Thread>, DomainError>)
        ensures
            r matches Ok(v) ==> is_ordered(v@, true),
            r matches Err(e) ==> e is Database,
            call_ensures(T::list, (&self.thread_repo,), r),
    {
        self.thread_repo.list()
    }

    /// The threads with the given status, or all threads where none is given, the
    /// most recently updated first.
    pub fn list_by_status(&self, status: Option<ThreadStatus>) -> (r: Result<
        Vec<Thread>,
        DomainError,
    >)
        ensures
            r matches Ok(v) ==> is_ordered(v@, true) && all_with_status(v@, status),
            r matches Err(e) ==> e is Database,
            call_ensures(T::list_by_status, (&self.thread_repo, status), r),
    {
        self.thread_repo.list_by_status(status)
    }

    /// The thread with the identifier `id`, if the store has it.
    pub fn find_by_id(&self, id: &str) -> (r: Result<Option<Thread>, DomainError>)
        ensures
            r matches Ok(Some(t)) ==> t.id@ == id@,
            r matches Err(e) ==> e is Database,
            call_ensures(T::find_by_id, (&self.thread_repo, id), r),
    {
        self.thread_repo.find_by_id(id)
    }

    /// The identifier of the one thread whose identifier begins with `short_id`.
    pub fn resolve_id(&self, short_id: &str) -> (r: Result<String, DomainError>)
        ensures
            is_resolution(r, RecordKind::Thread, short_id@),
            call_ensures(T::resolve_short_id, (&self.thread_repo, short_id), r),
    {
        self.thread_repo.resolve_short_id(short_id)
    }

    /// Sets the status of the one thread whose identifier begins with `id`.
    fn set_status(&self, id: &str, status: ThreadStatus) -> (r: Result<(), DomainError>)
        ensures
            is_short_change(r, id@),
            self.answers_status(id, status, r),
    {
        proof {
            lemma_begins_with_itself(id@);
        }
        let resolved = self.thread_repo.resolve_short_id(id);
        let full_id = match resolved {
            Ok(f) => f,
            Err(e) => { return Err(e); },
        };
        let full = full_id.as_str();
        assert(self.resolves(id, full));
        self.thread_repo.update_status(full, status)
    }

    /// Closes the one thread whose identifier begins with `id`.
    pub fn close(&self, id: &str) -> (r: Result<(), DomainError>)
        ensures
            is_short_change(r, id@),
            self.answers_status(id, ThreadStatus::Closed, r),
    {
        self.set_status(id, ThreadStatus::Closed)
    }

    /// Reopens the one thread whose identifier begins with `id`.
    pub fn reopen(&self, id: &str) -> (r: Result<(), DomainError>)
        ensures
            is_short_change(r, id@),
            self.answers_status(id, ThreadStatus::Open, r),
    {
        self.set_status(id, ThreadStatus::Open)
    }

    /// Sets the phase of the one thread whose identifier begins with `id`, or clears
    /// it with `None`.
    pub fn set_phase(&self, id: &str, phase: Option<ThreadPhase>) -> (r: Result<(), DomainError>)
        ensures
            is_short_change(r, id@),
            self.answers_phase(id, phase, r),
    {
        proof {
            lemma_begins_with_itself(id@);
        }
        let resolved = self.thread_repo.resolve_short_id(id);
        let full_id = match resolved {
            Ok(f) => f,
            Err(e) => { return Err(e); },
        };
        let full = full_id.as_str();
        assert(self.resolves(id, full));
        self.thread_repo.update_phase(full, phase)
    }

    /// Deletes the one thread whose identifier begins with `id`, its messages first.
    pub fn delete(&self, id: &str) -> (r: Result<(), DomainError>)
        ensures
            is_short_change(r, id@),
            self.answers_delete(id, r),
    {
        proof {
            lemma_begins_with_itself(id@);
        }
        let resolved = self.thread_repo.resolve_short_id(id);
        let full_id = match resolved {
            Ok(f) => f,
            Err(e) => { return Err(e); },
        };
        let full = full_id.as_str();
        assert(self.resolves(id, full));
        let messages = self.message_repo.delete_by_thread(full);
        let count = match messages {
            Ok(n) => n,
            Err(e) => {
                assert(self.answers_cascade(full, Err(e)));
                return Err(e);
            },
        };
        let r = self.thread_repo.delete(full);
        assert(call_ensures(
            M::delete_by_thread,
            (&self.message_repo, full),
            Ok::<usize, DomainError>(count),
        ));
        assert(self.answers_cascade(full, r));
        r
    }

    /// Stores the document `html`, which was fetched from `url`, as a new thread
    /// with one system message that holds its Markdown rendering, and returns the
    /// thread. The thread is titled `title`, or `url` where no title is given.
    pub fn fetch(&self, url: &str, title: Option<&str>, sender: Option<&str>, html: &str) -> (r:
        Result<Thread, DomainError>)
        ensures
            match r {
                Ok(t) => t@ == new_thread(
                    t.id@,
                    t.created_at,
                    fetched_title(url@, opt_str(title)),
                    Some(url@),
                ),
                Err(e) => e is Database || e is InvalidInput,
            },
            self.answers_fetch(
                fetched_title(url@, opt_str(title)),
                url@,
                opt_str(sender),
                stored_rendering(html@),
                r,
            ),
    {
        let markdown = html_to_markdown(html);
        let thread_title = match title {
            Some(t) => t,
            None => url,
        };
        let at = now();
        let thread = compose_thread(new_id(), at, thread_title, Some(url));
        let written = self.thread_repo.create(&thread);
        match written {
            Ok(done) => {
                assert(done == ());
            },
            Err(e) => {
                assert(self.answers_create(thread_title@, Some(url@), None, Err(e)));
                return Err(e);
            },
        }
        assert(self.answers_create(thread_title@, Some(url@), Some(thread), Ok(())));
        let msg = compose_fetched_message(new_id(), at, thread.id.as_str(), sender, markdown);
        let stored = self.message_repo.insert(&msg);
        assert(self.answers_fetched(thread, opt_str(sender), stored_rendering(html@), stored));
        match stored {
            Ok(done) => {
                assert(done == ());
                Ok(thread)
            },
            Err(e) => Err(e),
        }
    }
}

/// Every text begins with itself.
pub proof fn lemma_begins_with_itself(s: Seq<char>)
    ensures
        starts_with(s, s),
{
    assert(s.subrange(0, 0 + s.len() as int) =~= s);
}

/// `r` is what changing the thread named by the short identifier `id` may answer:
/// success, or a failure of resolving `id`, of the store or of the input. A thread
/// that is not found is named by `id` itself where none begins with it, and by the
/// full identifier where the thread was gone when the change came.
pub open spec fn is_short_change(r: Result<(), DomainError>, id: Seq<char>) -> bool {
    r matches Err(e) ==> {
        ||| e is Database
        ||| e is InvalidInput
        ||| (e matches DomainError::ThreadNotFound(p) && starts_with(p@, id))
        ||| (e matches DomainError::AmbiguousShortId(p, n) && p@ == id && n >= 2)
    }
}

} // verus!
