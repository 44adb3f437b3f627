//! Writing a batch of messages in one transaction: all of them or none.

use vstd::prelude::*;
use crate::domain::entity::{message_defect, Message};
use crate::domain::error::DomainError;
use crate::infra::codec::{encode_message, message_params, params_of};
use crate::domain::text::joined;
use crate::infra::driver::{error_text, run_batch, run_statement, SqlValue};
use crate::infra::schema::ROLLBACK_SQL;
use crate::infra::statements::{BEGIN_SQL, COMMIT_SQL, INSERT_MESSAGE_SQL};

verus! {

/// `why` names the defect of the first message of the batch that has one.
pub open spec fn is_first_defect(messages: Seq<Message>, why: Seq<char>) -> bool {
    exists|i: int|
        0 <= i < messages.len() && message_defect((#[trigger] messages[i])@) == Some(why)
            && forall|k: int| 0 <= k < i ==> message_defect((#[trigger] messages[k])@) is None
}

/// The parameters under which each message of a batch is written, or the input
/// error for the first message that has a defect. Nothing is handed to the store
/// before every message of the batch is known to be without defect.
pub fn encode_batch(messages: &[Message]) -> (r: Result<Vec<Vec<SqlValue>>, DomainError>)
    ensures
        match r {
            Ok(encoded) => {
                &&& encoded@.len() == messages@.len()
                &&& forall|k: int|
                    0 <= k < messages@.len() ==> message_defect((#[trigger] messages@[k])@) is None
                        && params_of(encoded@[k]@) == message_params(
                        messages@[k]@,
                    )
            },
            Err(e) => e matches DomainError::InvalidInput(why) && is_first_defect(messages@, why@),
        },
{
    let mut encoded: Vec<Vec<SqlValue>> = Vec::new();
    let mut i: usize = 0;
    while i < messages.len()
        invariant
            i <= messages@.len(),
            encoded@.len() == i,
            forall|k: int|
                0 <= k < i ==> message_defect((#[trigger] messages@[k])@) is None
                    && params_of(encoded@[k]@) == message_params(
                    messages@[k]@,
                ),
        decreases messages@.len() - i,
    {
        match encode_message(&messages[i]) {
            Ok(params) => {
                encoded.push(params);
            },
            Err(e) => {
                return Err(e);
            },
        }
        i += 1;
    }
    Ok(encoded)
}

/// A statement of the transaction in which a batch is written.
#[derive(Debug, Clone, Copy, PartialEq, Eq)]
pub enum Statement {
    /// Begins the transaction.
    Begin,
    /// Inserts the message at this place of the batch.
    Insert(usize),
    /// Commits the transaction.
    Commit,
}

/// What writing a batch does next.
pub enum BatchNext {
    /// Hand this statement to the store and come back with its outcome.
    Run(Statement),
    /// Hand `ROLLBACK` to the store, whatever comes of it, and answer with this error.
    Abandon(DomainError),
    /// Answer with this; nothing more is handed to the store.
    Answer(Result<usize, DomainError>),
}

/// The text of a statement.
pub open spec fn statement_text(statement: Statement) -> Seq<char> {
    match statement {
        Statement::Begin => BEGIN_SQL@,
        Statement::Insert(_) => INSERT_MESSAGE_SQL@,
        Statement::Commit => COMMIT_SQL@,
    }
}

/// The words that begin the error of a statement that the store refused.
pub open spec fn batch_context(statement: Statement) -> Seq<char> {
    match statement {
        Statement::Begin => "failed to begin transaction: "@,
        Statement::Insert(_) => "failed to insert message: "@,
        Statement::Commit => "failed to commit transaction: "@,
    }
}

/// `e` is the error of the statement `statement` that the store refused with the
/// words `words`: a store error of the statement's context, then the words.
pub open spec fn is_refusal(e: DomainError, statement: Statement, words: Seq<char>) -> bool {
    e matches DomainError::Database(text) && text@ == batch_context(statement) + words
}

/// `e` is the error of some statement of a batch that the store refused.
pub open spec fn is_batch_failure(e: DomainError) -> bool {
    exists|statement: Statement, words: Seq<char>| #[trigger] is_refusal(e, statement, words)
}

/// The statement that follows `last` in a batch of `n` messages when the store
/// carried `last` out: after the beginning and after each insert the insert of the
/// next message, after the last insert the commit.
pub open spec fn following(n: nat, last: Statement) -> Option<Statement> {
    match last {
        Statement::Begin => Some(
            if n > 0 {
                Statement::Insert(0)
            } else {
                Statement::Commit
            },
        ),
        Statement::Insert(k) => Some(
            if k + 1 < n {
                Statement::Insert((k + 1) as usize)
            } else {
                Statement::Commit
            },
        ),
        Statement::Commit => None,
    }
}

/// The text of a statement.
pub fn statement_sql(statement: Statement) -> (sql: &'static str)
    ensures
        sql@ == statement_text(statement),
{
    match statement {
        Statement::Begin => BEGIN_SQL,
        Statement::Insert(_) => INSERT_MESSAGE_SQL,
        Statement::Commit => COMMIT_SQL,
    }
}

/// What writing a batch of `n` messages does after the statement `last`, which the
/// store carried out or refused with its own words.
///
/// A statement carried out is followed by the next one, and the commit by the
/// answer `n`: a batch is answered with its number only after a commit that the
/// store carried out. A transaction that could not be begun is answered with that
/// error. A refused insert or commit abandons the batch: the transaction is rolled
/// back at once and the answer is the error of the statement that was refused.
pub fn next_in_batch(n: usize, last: Statement, outcome: Result<(), String>) -> (next: BatchNext)
    ensures
        match outcome {
            Ok(()) => match following(n as nat, last) {
                Some(statement) => next == BatchNext::Run(statement),
                None => next == BatchNext::Answer(Ok(n)),
            },
            Err(words) => match last {
                Statement::Begin => next matches BatchNext::Answer(Err(e)) && is_refusal(
                    e,
                    last,
                    words@,
                ),
                _ => next matches BatchNext::Abandon(e) && is_refusal(e, last, words@),
            },
        },
        next matches BatchNext::Answer(Ok(_)) ==> last == Statement::Commit && outcome is Ok,
{
    match outcome {
        Ok(()) => match last {
            Statement::Begin => {
                if n > 0 {
                    BatchNext::Run(Statement::Insert(0))
                } else {
                    BatchNext::Run(Statement::Commit)
                }
            },
            Statement::Insert(k) => {
                if k < n && k + 1 < n {
                    BatchNext::Run(Statement::Insert(k + 1))
                } else {
                    BatchNext::Run(Statement::Commit)
                }
            },
            Statement::Commit => BatchNext::Answer(Ok(n)),
        },
        Err(words) => match last {
            Statement::Begin => BatchNext::Answer(
                Err(DomainError::Database(joined("failed to begin transaction: ", words.as_str()))),
            ),
            Statement::Insert(_) => BatchNext::Abandon(
                DomainError::Database(joined("failed to insert message: ", words.as_str())),
            ),
            Statement::Commit => BatchNext::Abandon(
                DomainError::Database(joined("failed to commit transaction: ", words.as_str())),
            ),
        },
    }
}

/// How many statements may still follow `statement` in a batch of `n` messages.
pub open spec fn remaining(n: nat, statement: Statement) -> nat {
    match statement {
        Statement::Begin => n + 1,
        Statement::Insert(k) => if k < n {
            (n - k) as nat
        } else {
            0
        },
        Statement::Commit => 0,
    }
}

/// Hands one statement of a batch to the store and returns the store's own words
/// where it refused the statement.
fn hand_over(conn: &rusqlite::Connection, statement: Statement, encoded: &Vec<Vec<SqlValue>>) -> (r:
    Result<(), String>)
    requires
        statement matches Statement::Insert(k) ==> k < encoded@.len(),
{
    let sql = statement_sql(statement);
    let answered = match statement {
        Statement::Insert(k) => match run_statement(conn, sql, &encoded[k]) {
            Ok(_) => Ok(()),
            Err(e) => Err(e),
        },
        _ => run_batch(conn, sql),
    };
    match answered {
        Ok(()) => Ok(()),
        Err(e) => Err(error_text(&e)),
    }
}

/// Writes the messages whose parameters are `encoded` in one transaction: it hands
/// the store the beginning, and after each outcome does what `next_in_batch` says,
/// until that gives the answer.
pub fn write_batch(conn: &rusqlite::Connection, encoded: &Vec<Vec<SqlValue>>) -> (r: Result<
    usize,
    DomainError,
>)
    ensures
        match r {
            Ok(n) => n == encoded@.len(),
            Err(e) => is_batch_failure(e),
        },
{
    let n = encoded.len();
    let mut statement = Statement::Begin;
    loop
        invariant
            n == encoded@.len(),
            statement matches Statement::Insert(k) ==> k < n,
        decreases remaining(n as nat, statement),
    {
        let outcome = hand_over(conn, statement, encoded);
        match next_in_batch(n, statement, outcome) {
            BatchNext::Run(next) => {
                statement = next;
            },
            BatchNext::Abandon(e) => {
                let _ = run_batch(conn, ROLLBACK_SQL);
                return Err(e);
            },
            BatchNext::Answer(answer) => {
                return answer;
            },
        }
    }
}

} // verus!
