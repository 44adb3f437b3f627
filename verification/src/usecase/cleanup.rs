//! Bulk deletion: by age, by thread, by session.

use vstd::prelude::*;
use crate::domain::error::DomainError;
use crate::domain::instant::{now, Timestamp};
use crate::domain::repository::{fails_on_store_or_input, MessageRepository, ThreadRepository};
use crate::domain::resolver::{is_not_found, RecordKind};

verus! {

/// The number of seconds of a day.
pub const SECONDS_PER_DAY: i64 = 86_400;

/// The instant `days` days before `now`, where its seconds fit 64 bits.
pub open spec fn cutoff_of(now: Timestamp, days: int) -> Option<Timestamp> {
    let secs = now.secs - days * SECONDS_PER_DAY;
    if i64::MIN <= secs <= i64::MAX {
        Some(Timestamp { secs: secs as i64, nanos: now.nanos })
    } else {
        None
    }
}

/// The instant `days` days before `now`, or `None` where it cannot be held.
pub fn cutoff_before(now: &Timestamp, days: i64) -> (r: Option<Timestamp>)
    ensures
        r == cutoff_of(*now, days as int),
{
    let span: i128 = (days as i128) * 86_400;
    assert(span == days * SECONDS_PER_DAY);
    let secs: i128 = (now.secs as i128) - span;
    if secs < (i64::MIN as i128) || secs > (i64::MAX as i128) {
        None
    } else {
        Some(Timestamp { secs: secs as i64, nanos: now.nanos })
    }
}

/// The span of `days` days is longer than the whole range of instants, so that no
/// instant lies `days` days before another.
pub open spec fn outlasts_every_instant(days: int) -> bool {
    days * SECONDS_PER_DAY > i64::MAX - i64::MIN || days * SECONDS_PER_DAY < i64::MIN - i64::MAX
}

/// An age that outlasts every instant has no cutoff, whatever the instant now.
pub proof fn lemma_no_cutoff_for_long_age(now: Timestamp, days: int)
    requires
        outlasts_every_instant(days),
    ensures
        cutoff_of(now, days) is None,
{
}

/// Nothing is older than zero days ago but what is older than now.
pub proof fn lemma_cutoff_zero_days(now: Timestamp)
    ensures
        cutoff_of(now, 0) == Some(now),
{
}

/// The bulk deletions, over any store of threads and any store of messages.
pub struct CleanupUseCase<T: ThreadRepository, M: MessageRepository> {
    pub thread_repo: T,
    pub message_repo: M,
}

impl<T: ThreadRepository, M: MessageRepository> CleanupUseCase<T, M> {
    /// The deletions over the two stores.
    pub fn new(thread_repo: T, message_repo: M) -> (r: Self)
        ensures
            r.thread_repo == thread_repo,
            r.message_repo == message_repo,
    {
        CleanupUseCase { thread_repo, message_repo }
    }

    /// `r` is what the store of messages answered when it was asked to delete what
    /// is older than `cutoff`.
    pub open spec fn answers_older_than(
        &self,
        cutoff: Timestamp,
        r: Result<usize, DomainError>,
    ) -> bool {
        call_ensures(M::delete_older_than, (&self.message_repo, &cutoff), r)
    }

    /// `r` is what deleting by age answers at the instant `now`: where `days` days
    /// before `now` is an instant, what the store of messages answered when it was
    /// asked to delete what is older than that instant, unchanged; the input error
    /// otherwise, and then no store is asked.
    pub open spec fn answers_by_age(
        &self,
        days: i64,
        now: Timestamp,
        r: Result<usize, DomainError>,
    ) -> bool {
        match cutoff_of(now, days as int) {
            Some(cutoff) => self.answers_older_than(cutoff, r),
            None => r matches Err(DomainError::InvalidInput(why)) && why@ == "age out of range"@,
        }
    }

    /// `r` is what deleting by thread answers: the number that the store of messages
    /// answered when it was asked to delete the messages of `thread_id`, once the
    /// store of threads, asked after that to delete `thread_id`, has answered with
    /// success; the error of the store of messages, and then the store of threads
    /// is not asked; or the error of the store of threads, which it gave after the
    /// store of messages had answered with a number.
    pub open spec fn answers_by_thread(
        &self,
        thread_id: &str,
        r: Result<usize, DomainError>,
    ) -> bool {
        match r {
            Ok(n) => {
                &&& call_ensures(
                    M::delete_by_thread,
                    (&self.message_repo, thread_id),
                    Ok::<usize, DomainError>(n),
                )
                &&& call_ensures(
                    T::delete,
                    (&self.thread_repo, thread_id),
                    Ok::<(), DomainError>(()),
                )
            },
            Err(e) => {
                ||| call_ensures(
                    M::delete_by_thread,
                    (&self.message_repo, thread_id),
                    Err::<usize, DomainError>(e),
                )
                ||| exists|n: usize|
                    {
                        &&& #[trigger] call_ensures(
                            M::delete_by_thread,
                            (&self.message_repo, thread_id),
                            Ok::<usize, DomainError>(n),
                        )
                        &&& call_ensures(
                            T::delete,
                            (&self.thread_repo, thread_id),
                            Err::<(), DomainError>(e),
                        )
                    }
            },
        }
    }

    /// `r` is what the store of messages answered when it was asked to delete the
    /// messages of the session `session_id`.
    pub open spec fn answers_by_session(
        &self,
        session_id: &str,
        r: Result<usize, DomainError>,
    ) -> bool {
        call_ensures(M::delete_by_session, (&self.message_repo, session_id), r)
    }

    /// Deletes the messages created strictly before the instant `days` days ago and
    /// returns their number. An age whose cutoff cannot be held is invalid input.
    pub fn by_age(&self, days: i64) -> (r: Result<usize, DomainError>)
        ensures
            fails_on_store_or_input(r),
            outlasts_every_instant(days as int) ==> r matches Err(DomainError::InvalidInput(_)),
            exists|at: Timestamp| #[trigger] self.answers_by_age(days, at, r),
    {
        let at = now();
        proof {
            if outlasts_every_instant(days as int) {
                lemma_no_cutoff_for_long_age(at, days as int);
            }
        }
        let r = self.by_age_at(days, &at);
        assert(self.answers_by_age(days, at, r));
        r
    }

    /// Deletes the messages created strictly before the instant `days` days before
    /// `now` and returns their number.
    pub fn by_age_at(&self, days: i64, now: &Timestamp) -> (r: Result<usize, DomainError>)
        ensures
            fails_on_store_or_input(r),
            self.answers_by_age(days, *now, r),
    {
        match cutoff_before(now, days) {
            Some(cutoff) => self.message_repo.delete_older_than(&cutoff),
            None => Err(DomainError::InvalidInput(String::from_str("age out of range"))),
        }
    }

    /// Deletes the messages of the thread `thread_id`, then the thread itself, and
    /// returns the number of messages deleted. The two steps are not one
    /// transaction: where the thread is missing the messages are gone and the
    /// not-found error is returned.
    pub fn by_thread(&self, thread_id: &str) -> (r: Result<usize, DomainError>)
        ensures
            r matches Err(e) ==> e is Database || e is InvalidInput || is_not_found(
                e,
                RecordKind::Thread,
                thread_id@,
            ),
            self.answers_by_thread(thread_id, r),
    {
        let messages = self.message_repo.delete_by_thread(thread_id);
        let count = match messages {
            Ok(n) => n,
            Err(e) => { return Err(e); },
        };
        let thread = self.thread_repo.delete(thread_id);
        match thread {
            Ok(done) => {
                assert(done == ());
                Ok(count)
            },
            Err(e) => Err(e),
        }
    }

    /// Deletes the messages of the session `session_id` and returns their number.
    /// Threads are not touched.
    pub fn by_session(&self, session_id: &str) -> (r: Result<usize, DomainError>)
        ensures
            r matches Err(e) ==> e is Database,
            self.answers_by_session(session_id, r),
    {
        self.message_repo.delete_by_session(session_id)
    }
}

} // verus!
