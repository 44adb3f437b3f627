//! Opening the store and bringing its schema up to date.
//!
//! The schema is versioned. A record of the versions applied is kept in the store;
//! on open, every step with a version above the highest one recorded is applied, in
//! ascending order, and the steps recorded are skipped.

use vstd::prelude::*;
use crate::domain::error::DomainError;
use crate::domain::text::{joined, starts_with};
use crate::infra::driver::{error_text, open_file, open_memory, query_integer, run_batch};

verus! {

/// How a connection is set up: write-ahead logging, a wait of five seconds for a
/// lock held elsewhere, relaxed flushing, and no enforcement of foreign keys.
pub const CONFIGURE_SQL: &'static str =
    "PRAGMA journal_mode = WAL;
PRAGMA busy_timeout = 5000;
PRAGMA synchronous = NORMAL;
PRAGMA foreign_keys = OFF;";

/// Counts the table that records the schema versions.
pub const HAS_VERSION_TABLE_SQL: &'static str =
    "SELECT COUNT(*) FROM sqlite_master WHERE type='table' AND name='schema_version'";

/// Reads the highest version recorded.
pub const MAX_VERSION_SQL: &'static str = "SELECT COALESCE(MAX(version), 0) FROM schema_version";

/// Undoes a step that failed half way.
pub const ROLLBACK_SQL: &'static str = "ROLLBACK";

/// Step 1: threads, messages, the full-text index over message content with the
/// triggers that keep it in step, and the record of versions.
pub const MIGRATION_V1: &'static str =
    "BEGIN;
CREATE TABLE IF NOT EXISTS schema_version (
    version INTEGER PRIMARY KEY,
    applied_at TEXT NOT NULL DEFAULT (datetime('now'))
);
CREATE TABLE IF NOT EXISTS threads (
    id TEXT PRIMARY KEY NOT NULL,
    name TEXT,
    title TEXT NOT NULL,
    source_url TEXT,
    created_at TEXT NOT NULL,
    updated_at TEXT NOT NULL
);
CREATE TABLE IF NOT EXISTS messages (
    id TEXT PRIMARY KEY NOT NULL,
    thread_id TEXT NOT NULL,
    session_id TEXT,
    sender TEXT,
    role TEXT NOT NULL,
    content TEXT NOT NULL,
    metadata TEXT,
    parent_id TEXT,
    source TEXT,
    created_at TEXT NOT NULL,
    updated_at TEXT NOT NULL
);
CREATE INDEX IF NOT EXISTS idx_messages_thread ON messages(thread_id, created_at);
CREATE INDEX IF NOT EXISTS idx_messages_session ON messages(session_id);
CREATE INDEX IF NOT EXISTS idx_messages_created ON messages(created_at);
CREATE VIRTUAL TABLE IF NOT EXISTS messages_fts USING fts5(
    content,
    content='messages',
    content_rowid='rowid'
);
CREATE TRIGGER IF NOT EXISTS messages_ai AFTER INSERT ON messages BEGIN
    INSERT INTO messages_fts(rowid, content) VALUES (new.rowid, new.content);
END;
CREATE TRIGGER IF NOT EXISTS messages_ad AFTER DELETE ON messages BEGIN
    INSERT INTO messages_fts(messages_fts, rowid, content)
    VALUES ('delete', old.rowid, old.content);
END;
CREATE TRIGGER IF NOT EXISTS messages_au AFTER UPDATE ON messages BEGIN
    INSERT INTO messages_fts(messages_fts, rowid, content)
    VALUES ('delete', old.rowid, old.content);
    INSERT INTO messages_fts(rowid, content) VALUES (new.rowid, new.content);
END;
INSERT OR IGNORE INTO schema_version (version) VALUES (1);
COMMIT;";

/// Step 2: the status and the phase of a thread.
pub const MIGRATION_V2: &'static str =
    "BEGIN;
ALTER TABLE threads ADD COLUMN status TEXT NOT NULL DEFAULT 'open';
ALTER TABLE threads ADD COLUMN phase TEXT;
INSERT OR IGNORE INTO schema_version (version) VALUES (2);
COMMIT;";

/// The version of the newest step.
pub const LATEST_VERSION: i64 = 2;

/// The versions that remain to be applied to a schema at version `current`: those
/// above it up to the newest, in ascending order.
pub open spec fn pending_after(current: int) -> Seq<i64> {
    if current < 1 {
        seq![1i64, 2i64]
    } else if current < 2 {
        seq![2i64]
    } else {
        Seq::empty()
    }
}

/// The statements of the step with the given version.
pub open spec fn step_sql(version: i64) -> Seq<char> {
    if version == 1 {
        MIGRATION_V1@
    } else {
        MIGRATION_V2@
    }
}

/// The version of a schema from what the store reports: 0 where the record of
/// versions is missing, the highest version recorded otherwise.
pub open spec fn version_from(tables: int, recorded: int) -> int {
    if tables > 0 {
        recorded
    } else {
        0
    }
}

/// `e` is a store error whose text begins with `context`.
pub open spec fn is_store_failure(e: DomainError, context: Seq<char>) -> bool {
    e matches DomainError::Database(text) && starts_with(text@, context)
}

/// The store error for a failure of the store: `context`, then the store's own words.
pub fn store_failure(context: &str, e: &rusqlite::Error) -> (r: DomainError)
    ensures
        is_store_failure(r, context@),
{
    let detail = error_text(e);
    let text = joined(context, detail.as_str());
    proof {
        assert(text@.subrange(0, 0 + context@.len() as int) =~= context@);
    }
    DomainError::Database(text)
}

/// The versions that remain to be applied to a schema at version `current`.
pub fn pending_versions(current: i64) -> (v: Vec<i64>)
    ensures
        v@ == pending_after(current as int),
        forall|i: int| 0 <= i < v@.len() ==> current < #[trigger] v@[i] <= LATEST_VERSION,
        forall|i: int, j: int| 0 <= i < j < v@.len() ==> v@[i] < v@[j],
{
    let mut v: Vec<i64> = Vec::new();
    if current < 1 {
        v.push(1);
    }
    if current < 2 {
        v.push(2);
    }
    assert(v@ =~= pending_after(current as int));
    v
}

/// The statements of the step with the given version.
pub fn migration_sql(version: i64) -> (sql: &'static str)
    ensures
        sql@ == step_sql(version),
{
    if version == 1 {
        MIGRATION_V1
    } else {
        MIGRATION_V2
    }
}

/// The version of a schema from what the store reports.
pub fn schema_version(tables: i64, recorded: i64) -> (v: i64)
    ensures
        v == version_from(tables as int, recorded as int),
{
    if tables > 0 {
        recorded
    } else {
        0
    }
}

/// The words that begin the error of a step that the store refused.
pub open spec fn step_context(version: i64) -> Seq<char> {
    if version == 1 {
        "migration v1 failed: "@
    } else {
        "migration v2 failed: "@
    }
}

/// `e` is the error of reading the version of the schema: the store failed either
/// to tell whether versions are recorded or to tell the highest one recorded.
pub open spec fn is_version_failure(e: DomainError) -> bool {
    ||| is_store_failure(e, "failed to check schema_version table: "@)
    ||| is_store_failure(e, "failed to read schema version: "@)
}

/// `e` is the error of a step that the store refused.
pub open spec fn is_step_failure(e: DomainError) -> bool {
    exists|version: i64|
        1 <= version <= LATEST_VERSION && is_store_failure(e, #[trigger] step_context(version))
}

/// `e` is the error of bringing a schema up to date: its version could not be read,
/// or a step was refused.
pub open spec fn is_migration_failure(e: DomainError) -> bool {
    is_version_failure(e) || is_step_failure(e)
}

/// `e` is the error of making a connection ready: it could not be configured, or
/// its schema could not be brought up to date.
pub open spec fn is_setup_failure(e: DomainError) -> bool {
    is_store_failure(e, "failed to configure database: "@) || is_migration_failure(e)
}

/// What bringing a schema up to date does next.
pub enum MigrationNext {
    /// Hand the step at this place of the pending ones to the store and come back
    /// with its outcome.
    Apply(usize),
    /// Hand `ROLLBACK` to the store, whatever comes of it, and answer with this error.
    Undo(DomainError),
    /// Answer with success; nothing more is handed to the store.
    Finished,
}

/// What bringing a schema up to date does after the step at `place` of `pending`,
/// which the store carried out or refused with its own words.
///
/// A step carried out is followed by the next pending one, and the last by
/// success. A refused step ends the run: it is undone at once, no later step is
/// applied, and the answer is the error of that step.
pub fn after_step(pending: &Vec<i64>, place: usize, outcome: Result<(), String>) -> (next:
    MigrationNext)
    requires
        place < pending@.len(),
    ensures
        match outcome {
            Ok(()) => next == (if place + 1 < pending@.len() {
                MigrationNext::Apply((place + 1) as usize)
            } else {
                MigrationNext::Finished
            }),
            Err(words) => next matches MigrationNext::Undo(DomainError::Database(text)) && text@
                == step_context(pending@[place as int]) + words@,
        },
{
    match outcome {
        Ok(()) => {
            let n = pending.len();
            if place + 1 < n {
                MigrationNext::Apply(place + 1)
            } else {
                MigrationNext::Finished
            }
        },
        Err(words) => {
            let context = if pending[place] == 1 {
                "migration v1 failed: "
            } else {
                "migration v2 failed: "
            };
            MigrationNext::Undo(DomainError::Database(joined(context, words.as_str())))
        },
    }
}

/// Hands the step with the given version to the store and returns the store's own
/// words where it refused the step.
fn apply_step(conn: &rusqlite::Connection, version: i64) -> (r: Result<(), String>) {
    match run_batch(conn, migration_sql(version)) {
        Ok(()) => Ok(()),
        Err(e) => Err(error_text(&e)),
    }
}

/// Applies to a schema at version `current` every step above it, in ascending
/// order: it hands the store the first pending step, and after each outcome does
/// what `after_step` says. A schema with no step pending is up to date without a
/// word to the store.
pub fn apply_pending(conn: &rusqlite::Connection, current: i64) -> (r: Result<(), DomainError>)
    ensures
        pending_after(current as int).len() == 0 ==> r is Ok,
        r matches Err(e) ==> is_step_failure(e),
{
    let steps = pending_versions(current);
    if steps.len() == 0 {
        return Ok(());
    }
    let mut place: usize = 0;
    loop
        invariant
            place < steps@.len(),
            steps@ == pending_after(current as int),
        decreases steps@.len() - place,
    {
        let outcome = apply_step(conn, steps[place]);
        match after_step(&steps, place, outcome) {
            MigrationNext::Apply(next) => {
                place = next;
            },
            MigrationNext::Undo(e) => {
                let _ = run_batch(conn, ROLLBACK_SQL);
                proof {
                    let version = steps@[place as int];
                    let text = e->Database_0@;
                    assert(1 <= version <= LATEST_VERSION);
                    assert(text.subrange(0, 0 + step_context(version).len() as int)
                        =~= step_context(version));
                    assert(is_store_failure(e, step_context(version)));
                }
                return Err(e);
            },
            MigrationNext::Finished => {
                return Ok(());
            },
        }
    }
}

/// An open store whose schema is up to date.
pub struct Database {
    conn: rusqlite::Connection,
}

impl Database {
    /// Opens the store kept in the file at `path`, creating it if it is missing,
    /// and brings its schema up to date. Any failure of the store is fatal.
    pub fn open(path: &str) -> (r: Result<Database, DomainError>)
        ensures
            r matches Err(e) ==> is_store_failure(e, "failed to open database: "@)
                || is_setup_failure(e),
    {
        let conn = match open_file(path) {
            Ok(c) => c,
            Err(e) => { return Err(store_failure("failed to open database: ", &e)); },
        };
        Database::prepare(conn)
    }

    /// Opens a fresh store that lives in this process only and is gone when it is
    /// closed, with its schema up to date.
    pub fn open_in_memory() -> (r: Result<Database, DomainError>)
        ensures
            r matches Err(e) ==> is_store_failure(e, "failed to open in-memory database: "@)
                || is_setup_failure(e),
    {
        let conn = match open_memory() {
            Ok(c) => c,
            Err(e) => { return Err(store_failure("failed to open in-memory database: ", &e)); },
        };
        Database::prepare(conn)
    }

    /// The connection that the store holds.
    pub closed spec fn held(&self) -> rusqlite::Connection {
        self.conn
    }

    /// Sets the connection up and applies the pending steps. The store that comes
    /// of it holds that connection.
    fn prepare(conn: rusqlite::Connection) -> (r: Result<Database, DomainError>)
        ensures
            match r {
                Ok(db) => db.held() == conn,
                Err(e) => is_setup_failure(e),
            },
    {
        match Database::configure(&conn) {
            Ok(()) => {},
            Err(e) => { return Err(e); },
        }
        let mut db = Database { conn };
        match db.migrate() {
            Ok(()) => Ok(db),
            Err(e) => Err(e),
        }
    }

    /// Sets durability, lock wait and foreign-key handling of a connection.
    fn configure(conn: &rusqlite::Connection) -> (r: Result<(), DomainError>)
        ensures
            r matches Err(e) ==> is_store_failure(e, "failed to configure database: "@),
    {
        match run_batch(conn, CONFIGURE_SQL) {
            Ok(()) => Ok(()),
            Err(e) => Err(store_failure("failed to configure database: ", &e)),
        }
    }

    /// The version of the schema as the store reports it at this moment.
    pub fn current_version(&self) -> (r: Result<i64, DomainError>)
        ensures
            r matches Err(e) ==> is_version_failure(e),
    {
        let tables = match query_integer(&self.conn, HAS_VERSION_TABLE_SQL) {
            Ok(n) => n,
            Err(e) => {
                return Err(store_failure("failed to check schema_version table: ", &e));
            },
        };
        if tables <= 0 {
            return Ok(schema_version(tables, 0));
        }
        match query_integer(&self.conn, MAX_VERSION_SQL) {
            Ok(recorded) => Ok(schema_version(tables, recorded)),
            Err(e) => Err(store_failure("failed to read schema version: ", &e)),
        }
    }

    /// Applies every step above the current version, in ascending order. The first
    /// step that fails is undone and ends the run with its error.
    fn migrate(&mut self) -> (r: Result<(), DomainError>)
        ensures
            final(self).held() == old(self).held(),
            r matches Err(e) ==> is_migration_failure(e),
    {
        let current = match self.current_version() {
            Ok(v) => v,
            Err(e) => { return Err(e); },
        };
        apply_pending(&self.conn, current)
    }

    /// The connection to the store.
    pub fn connection(&self) -> (conn: &rusqlite::Connection)
        ensures
            *conn == self.held(),
    {
        &self.conn
    }
}

} // verus!
