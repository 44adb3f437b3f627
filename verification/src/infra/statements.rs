//! The statements that are handed to the store. Rows are asked for in the order in
//! which they are shown; messages of one second keep the order of their arrival.

use vstd::prelude::*;

verus! {

/// Writes a new thread.
pub const INSERT_THREAD_SQL: &'static str =
    "INSERT INTO threads (id, name, title, source_url, status, phase, created_at, updated_at) VALUES (?1, ?2, ?3, ?4, ?5, ?6, ?7, ?8)";

/// Writes a thread unless one with its identifier is stored.
pub const UPSERT_THREAD_SQL: &'static str =
    "INSERT OR IGNORE INTO threads (id, name, title, source_url, status, phase, created_at, updated_at) VALUES (?1, ?2, ?3, ?4, ?5, ?6, ?7, ?8)";

/// Reads the identifiers of the threads that match a pattern.
pub const THREAD_IDS_LIKE_SQL: &'static str = "SELECT id FROM threads WHERE id LIKE ?1 ESCAPE '\\'";

/// Reads the thread with an identifier.
pub const THREAD_BY_ID_SQL: &'static str =
    "SELECT id, name, title, source_url, status, phase, created_at, updated_at FROM threads WHERE id = ?1";

/// Reads all threads, the most recently updated first.
pub const THREADS_SQL: &'static str =
    "SELECT id, name, title, source_url, status, phase, created_at, updated_at FROM threads ORDER BY updated_at DESC, rowid DESC";

/// Reads the threads of a status, the most recently updated first.
pub const THREADS_BY_STATUS_SQL: &'static str =
    "SELECT id, name, title, source_url, status, phase, created_at, updated_at FROM threads WHERE status = ?1 ORDER BY updated_at DESC, rowid DESC";

/// Sets the status of a thread and the instant of its update.
pub const UPDATE_STATUS_SQL: &'static str =
    "UPDATE threads SET status = ?1, updated_at = ?2 WHERE id = ?3";

/// Sets the phase of a thread and the instant of its update.
pub const UPDATE_PHASE_SQL: &'static str =
    "UPDATE threads SET phase = ?1, updated_at = ?2 WHERE id = ?3";

/// Deletes a thread.
pub const DELETE_THREAD_SQL: &'static str = "DELETE FROM threads WHERE id = ?1";

/// Writes a message.
pub const INSERT_MESSAGE_SQL: &'static str =
    "INSERT INTO messages (id, thread_id, session_id, sender, role, content, metadata, parent_id, source, created_at, updated_at) VALUES (?1, ?2, ?3, ?4, ?5, ?6, ?7, ?8, ?9, ?10, ?11)";

/// Begins a transaction that holds the write lock from the start.
pub const BEGIN_SQL: &'static str = "BEGIN IMMEDIATE";

/// Commits the transaction.
pub const COMMIT_SQL: &'static str = "COMMIT";

/// Reads the identifiers of the messages that match a pattern.
pub const MESSAGE_IDS_LIKE_SQL: &'static str =
    "SELECT id FROM messages WHERE id LIKE ?1 ESCAPE '\\'";

/// Reads the message with an identifier.
pub const MESSAGE_BY_ID_SQL: &'static str =
    "SELECT id, thread_id, session_id, sender, role, content, metadata, parent_id, source, created_at, updated_at FROM messages WHERE id = ?1";

/// Reads the messages of a thread, oldest first.
pub const MESSAGES_BY_THREAD_SQL: &'static str =
    "SELECT id, thread_id, session_id, sender, role, content, metadata, parent_id, source, created_at, updated_at FROM messages WHERE thread_id = ?1 ORDER BY created_at ASC, rowid ASC";

/// Reads the newest messages, up to a limit.
pub const RECENT_MESSAGES_SQL: &'static str =
    "SELECT id, thread_id, session_id, sender, role, content, metadata, parent_id, source, created_at, updated_at FROM messages ORDER BY created_at DESC, rowid DESC LIMIT ?1";

/// Reads the messages that the full-text index matches, newest first.
pub const MATCH_SQL: &'static str =
    "SELECT m.id, m.thread_id, m.session_id, m.sender, m.role, m.content, m.metadata, m.parent_id, m.source, m.created_at, m.updated_at FROM messages m JOIN messages_fts ON m.rowid = messages_fts.rowid WHERE messages_fts MATCH ?1 ORDER BY m.created_at DESC, m.rowid DESC";

/// The same, within one thread.
pub const MATCH_IN_THREAD_SQL: &'static str =
    "SELECT m.id, m.thread_id, m.session_id, m.sender, m.role, m.content, m.metadata, m.parent_id, m.source, m.created_at, m.updated_at FROM messages m JOIN messages_fts ON m.rowid = messages_fts.rowid WHERE messages_fts MATCH ?1 AND m.thread_id = ?2 ORDER BY m.created_at DESC, m.rowid DESC";

/// Reads the messages whose content matches a pattern, newest first.
pub const LIKE_SQL: &'static str =
    "SELECT id, thread_id, session_id, sender, role, content, metadata, parent_id, source, created_at, updated_at FROM messages WHERE content LIKE ?1 ESCAPE '\\' ORDER BY created_at DESC, rowid DESC";

/// The same, within one thread.
pub const LIKE_IN_THREAD_SQL: &'static str =
    "SELECT id, thread_id, session_id, sender, role, content, metadata, parent_id, source, created_at, updated_at FROM messages WHERE content LIKE ?1 ESCAPE '\\' AND thread_id = ?2 ORDER BY created_at DESC, rowid DESC";

/// Replaces the content of a message and sets the instant of its update.
pub const UPDATE_CONTENT_SQL: &'static str =
    "UPDATE messages SET content = ?1, updated_at = ?2 WHERE id = ?3";

/// Deletes the messages of a thread.
pub const DELETE_BY_THREAD_SQL: &'static str = "DELETE FROM messages WHERE thread_id = ?1";

/// Deletes the messages of a session.
pub const DELETE_BY_SESSION_SQL: &'static str = "DELETE FROM messages WHERE session_id = ?1";

/// Deletes the messages created strictly before an instant.
pub const DELETE_OLDER_SQL: &'static str = "DELETE FROM messages WHERE created_at < ?1";

} // verus!
