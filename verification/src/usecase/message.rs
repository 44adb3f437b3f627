//! Posting, reading, searching and updating messages.

use vstd::prelude::*;
use crate::domain::entity::{message_defect, Message, MessageView, Role};
use crate::domain::error::DomainError;
use crate::domain::ident::new_id;
use crate::domain::instant::{now, Timestamp};
use crate::domain::json::json_valid;
use crate::domain::ordering::is_ordered;
use crate::domain::repository::{all_mention, within, MessageRepository};
use crate::domain::text::{opt_str, opt_text, owned, starts_with};

verus! {

/// The provenance tag of a message posted by hand.
pub const SOURCE_MANUAL: &'static str = "manual";

/// The provenance tag of a message posted under a sender's name.
pub const SOURCE_AGENT: &'static str = "agent";

/// The provenance tag of a posted message: `agent` with a sender, `manual` without.
pub open spec fn posted_source(sender: Option<Seq<char>>) -> Seq<char> {
    if sender is Some {
        SOURCE_AGENT@
    } else {
        SOURCE_MANUAL@
    }
}

/// The message that a post creates under the identifier `id` at the instant `at`.
pub open spec fn posted_message(
    id: Seq<char>,
    at: Timestamp,
    thread_id: Seq<char>,
    role: Role,
    content: Seq<char>,
    session_id: Option<Seq<char>>,
    sender: Option<Seq<char>>,
    metadata: Option<Seq<char>>,
    parent_id: Option<Seq<char>>,
) -> MessageView {
    MessageView {
        id,
        thread_id,
        session_id,
        sender,
        role,
        content,
        metadata,
        parent_id,
        source: Some(posted_source(sender)),
        created_at: at,
        updated_at: at,
    }
}

/// The message that a post creates under the identifier `id` at the instant `at`:
/// the caller's values as given, created and updated at `at`, tagged `agent` when a
/// sender is named and `manual` otherwise.
pub fn compose_message(
    id: String,
    at: Timestamp,
    thread_id: &str,
    role: Role,
    content: &str,
    session_id: Option<&str>,
    sender: Option<&str>,
    metadata: Option<String>,
    parent_id: Option<&str>,
) -> (m: Message)
    ensures
        m@ == posted_message(
            id@,
            at,
            thread_id@,
            role,
            content@,
            opt_str(session_id),
            opt_str(sender),
            opt_text(metadata),
            opt_str(parent_id),
        ),
{
    let source = match sender {
        Some(_) => SOURCE_AGENT,
        None => SOURCE_MANUAL,
    };
    Message {
        id,
        thread_id: String::from_str(thread_id),
        session_id: owned(session_id),
        sender: owned(sender),
        role,
        content: String::from_str(content),
        metadata,
        parent_id: owned(parent_id),
        source: Some(String::from_str(source)),
        created_at: at,
        updated_at: at,
    }
}

/// The operations on messages, over any store of messages.
pub struct MessageUseCase<R: MessageRepository> {
    pub repo: R,
}

impl<R: MessageRepository> MessageUseCase<R> {
    /// The operations over `repo`.
    pub fn new(repo: R) -> (r: Self)
        ensures
            r.repo == repo,
    {
        MessageUseCase { repo }
    }

    /// `r` is what the store answered when it was asked to write the message that
    /// a post with these values creates. The message written is `made` where one
    /// is given.
    pub open spec fn answers_post(
        &self,
        thread_id: Seq<char>,
        role: Role,
        content: Seq<char>,
        session_id: Option<Seq<char>>,
        sender: Option<Seq<char>>,
        metadata: Option<Seq<char>>,
        parent_id: Option<Seq<char>>,
        made: Option<Message>,
        r: Result<(), DomainError>,
    ) -> bool {
        exists|m: Message|
            {
                &&& made matches Some(given) ==> m == given
                &&& m@ == posted_message(
                    m.id@,
                    m.created_at,
                    thread_id,
                    role,
                    content,
                    session_id,
                    sender,
                    metadata,
                    parent_id,
                )
                &&& #[trigger] call_ensures(R::insert, (&self.repo, &m), r)
            }
    }

    /// `r` is what replacing the content of the message that `short_id` names
    /// answers: the error of resolving `short_id`, and then nothing is changed; the
    /// error with which the store answered when it was asked to give `content` to
    /// the message that it had resolved `short_id` to; or the identifier that it had
    /// resolved `short_id` to, after it answered that request with success.
    pub open spec fn answers_update(
        &self,
        short_id: &str,
        content: &str,
        r: Result<String, DomainError>,
    ) -> bool {
        match r {
            Ok(id) => exists|full: &str|
                {
                    &&& full@ == id@
                    &&& call_ensures(R::resolve_short_id, (&self.repo, short_id), r)
                    &&& #[trigger] call_ensures(
                        R::update_content,
                        (&self.repo, full, content),
                        Ok::<(), DomainError>(()),
                    )
                },
            Err(e) => {
                ||| call_ensures(R::resolve_short_id, (&self.repo, short_id), r)
                ||| exists|found: String, full: &str|
                    {
                        &&& full@ == found@
                        &&& #[trigger] call_ensures(
                            R::resolve_short_id,
                            (&self.repo, short_id),
                            Ok::<String, DomainError>(found),
                        )
                        &&& #[trigger] call_ensures(
                            R::update_content,
                            (&self.repo, full, content),
                            Err::<(), DomainError>(e),
                        )
                    }
            },
        }
    }

    /// Posts a message to the thread `thread_id` and returns it as it was written.
    ///
    /// The message gets a new identifier and the instant now as its creation and
    /// update. `metadata`, where given, is the text of a JSON document; a text that
    /// is none is refused as invalid input and nothing is written.
    pub fn post(
        &self,
        thread_id: &str,
        role: Role,
        content: &str,
        session_id: Option<&str>,
        sender: Option<&str>,
        metadata: Option<String>,
        parent_id: Option<&str>,
    ) -> (r: Result<Message, DomainError>)
        ensures
            match r {
                Ok(m) => message_defect(m@) is None && m@ == posted_message(
                    m.id@,
                    m.created_at,
                    thread_id@,
                    role,
                    content@,
                    opt_str(session_id),
                    opt_str(sender),
                    opt_text(metadata),
                    opt_str(parent_id),
                ),
                Err(e) => e is Database || e is InvalidInput,
            },
            (metadata matches Some(text) && !json_valid(text@)) ==> r is Err,
            match r {
                Ok(m) => self.answers_post(
                    thread_id@,
                    role,
                    content@,
                    opt_str(session_id),
                    opt_str(sender),
                    opt_text(metadata),
                    opt_str(parent_id),
                    Some(m),
                    Ok(()),
                ),
                Err(e) => self.answers_post(
                    thread_id@,
                    role,
                    content@,
                    opt_str(session_id),
                    opt_str(sender),
                    opt_text(metadata),
                    opt_str(parent_id),
                    None,
                    Err(e),
                ),
            },
    {
        let msg = compose_message(
            new_id(),
            now(),
            thread_id,
            role,
            content,
            session_id,
            sender,
            metadata,
            parent_id,
        );
        let written = self.repo.insert(&msg);
        match written {
            Ok(done) => {
                assert(done == ());
                Ok(msg)
            },
            Err(e) => Err(e),
        }
    }

    /// The messages of the thread `thread_id`, oldest first.
    pub fn read(&self, thread_id: &str) -> (r: Result<Vec<Message>, DomainError>)
        ensures
            r matches Ok(v) ==> is_ordered(v@, false) && within(v@, Some(thread_id@)),
            r matches Err(e) ==> e is Database,
            call_ensures(R::find_by_thread, (&self.repo, thread_id), r),
    {
        self.repo.find_by_thread(thread_id)
    }

    /// At most `limit` messages of all threads, the newest first.
    pub fn list_recent(&self, limit: usize) -> (r: Result<Vec<Message>, DomainError>)
        ensures
            r matches Ok(v) ==> is_ordered(v@, true) && v@.len() <= limit,
            r matches Err(e) ==> e is Database,
            call_ensures(R::list_recent, (&self.repo, limit), r),
    {
        self.repo.list_recent(limit)
    }

    /// The messages that match `query`, of one thread where one is given, the newest
    /// first.
    pub fn search(&self, query: &str, thread_id: Option<&str>) -> (r: Result<
        Vec<Message>,
        DomainError,
    >)
        ensures
            r matches Ok(v) ==> is_ordered(v@, true) && within(v@, opt_str(thread_id)),
            r matches Err(e) ==> e is Database,
            call_ensures(R::search, (&self.repo, query, thread_id), r),
    {
        self.repo.search(query, thread_id)
    }

    /// The messages that mention `target`, of one thread where one is given, the
    /// newest first.
    pub fn find_mentions(&self, thread_id: Option<&str>, target: &str) -> (r: Result<
        Vec<Message>,
        DomainError,
    >)
        ensures
            r matches Ok(v) ==> {
                &&& is_ordered(v@, true)
                &&& within(v@, opt_str(thread_id))
                &&& all_mention(v@, target@)
            },
            r matches Err(e) ==> e is Database,
            call_ensures(R::find_mentions, (&self.repo, thread_id, target), r),
    {
        self.repo.find_mentions(thread_id, target)
    }

    /// The number of messages that mention `target`.
    pub fn count_mentions(&self, thread_id: Option<&str>, target: &str) -> (r: Result<
        usize,
        DomainError,
    >)
        ensures
            r matches Err(e) ==> e is Database,
            call_ensures(R::count_mentions, (&self.repo, thread_id, target), r),
    {
        self.repo.count_mentions(thread_id, target)
    }

    /// Replaces the content of the one message whose identifier begins with
    /// `short_id` and returns its full identifier.
    pub fn update(&self, short_id: &str, content: &str) -> (r: Result<String, DomainError>)
        ensures
            match r {
                Ok(id) => starts_with(id@, short_id@),
                Err(e) => {
                    ||| e is Database
                    ||| e is InvalidInput
                    ||| e is MessageNotFound
                    ||| (e matches DomainError::AmbiguousShortId(p, n) && p@ == short_id@ && n >= 2)
                },
            },
            self.answers_update(short_id, content, r),
    {
        let resolved = self.repo.resolve_short_id(short_id);
        let full_id = match resolved {
            Ok(id) => id,
            Err(e) => { return Err(e); },
        };
        let full = full_id.as_str();
        let changed = self.repo.update_content(full, content);
        match changed {
            Ok(done) => {
                assert(done == ());
                Ok(full_id)
            },
            Err(e) => Err(e),
        }
    }
}

} // verus!
