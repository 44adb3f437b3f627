//! The commands of the tool, as values.

use vstd::prelude::*;

verus! {

/// One invocation of the tool.
#[derive(Debug, Clone, PartialEq, Eq)]
pub struct Cli {
    pub command: Commands,
}

/// The groups of commands.
#[derive(Debug, Clone, PartialEq, Eq)]
#[allow(inconsistent_fields)]
pub enum Commands {
    /// Post, read, search and update messages.
    Message { action: MessageAction },
    /// Create, list, close, reopen and delete threads.
    Thread { action: ThreadAction },
    /// Take in what an agent's hooks report.
    Hook { action: HookAction },
    /// Delete old data.
    Cleanup { action: CleanupAction },
    /// Write the documents that install the tool.
    Setup { action: SetupAction },
}

/// What to do with messages.
#[derive(Debug, Clone, PartialEq, Eq)]
#[allow(inconsistent_fields)]
pub enum MessageAction {
    /// Post a message to a thread. Without `content` the content is read from
    /// standard input.
    Post {
        thread: String,
        role: String,
        content: Option<String>,
        session: Option<String>,
        sender: Option<String>,
        parent: Option<String>,
        metadata: Option<String>,
    },
    /// Read the messages of a thread, or the newest of all threads without one.
    Read {
        thread: Option<String>,
        limit: Option<usize>,
        before: Option<String>,
        after: Option<String>,
        full: bool,
        format: String,
        sender: Option<String>,
    },
    /// List the newest messages of all threads.
    List { limit: usize, full: bool, format: String, sender: Option<String> },
    /// Search messages.
    Search {
        query: String,
        thread: Option<String>,
        full: bool,
        format: String,
        sender: Option<String>,
    },
    /// Show the messages that mention a name.
    Mentions { sender: String, full: bool, format: String },
    /// Replace the content of a message.
    Update { id: String, content: String },
}

/// What to do with threads.
#[derive(Debug, Clone, PartialEq, Eq)]
#[allow(inconsistent_fields)]
pub enum ThreadAction {
    Create { title: String },
    List { full: bool, format: String, status: String },
    Delete { id: String },
    Close { id: String },
    Reopen { id: String },
    SetPhase { id: String, phase: String },
    Fetch { url: String, title: Option<String>, sender: Option<String> },
}

/// What to do with hook events.
#[derive(Debug, Clone, PartialEq, Eq)]
pub enum HookAction {
    /// Take in the event on standard input.
    Ingest { thread: Option<String> },
}

/// What to delete.
#[derive(Debug, Clone, PartialEq, Eq)]
#[allow(inconsistent_fields)]
pub enum CleanupAction {
    /// The messages older than a number of days.
    Age { days: i64, no_backup: bool },
    /// A thread with its messages.
    Thread { id: String, no_backup: bool },
    /// The messages of a session.
    Session { id: String, no_backup: bool },
}

/// Which document to write.
#[derive(Debug, Clone, Copy, PartialEq, Eq)]
#[allow(inconsistent_fields)]
pub enum SetupAction {
    Hooks { apply: bool },
    Skill { apply: bool },
}

impl CleanupAction {
    /// The caller asked that no backup be made before deleting.
    pub open spec fn skips_backup(&self) -> bool {
        match self {
            CleanupAction::Age { no_backup, .. } => *no_backup,
            CleanupAction::Thread { no_backup, .. } => *no_backup,
            CleanupAction::Session { no_backup, .. } => *no_backup,
        }
    }

    /// Whether the caller asked that no backup be made before deleting.
    pub fn no_backup(&self) -> (r: bool)
        ensures
            r == self.skips_backup(),
    {
        match self {
            CleanupAction::Age { no_backup, .. } => *no_backup,
            CleanupAction::Thread { no_backup, .. } => *no_backup,
            CleanupAction::Session { no_backup, .. } => *no_backup,
        }
    }
}

impl MessageAction {
    /// The action takes its content from standard input.
    pub open spec fn reads_input(&self) -> bool {
        self matches MessageAction::Post { content, .. } && content is None
    }

    /// Whether the action takes its content from standard input.
    pub fn needs_input(&self) -> (r: bool)
        ensures
            r == self.reads_input(),
    {
        match self {
            MessageAction::Post { content, .. } => content.is_none(),
            _ => false,
        }
    }
}

} // verus!
