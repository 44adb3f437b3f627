//! Threads and messages, and the small vocabularies of status, phase and role.

use vstd::prelude::*;
use crate::domain::instant::{stored_text, Timestamp};
use crate::domain::json::json_valid;
use crate::domain::text::{
    ascii_lower, ascii_lower_text, copy_opt, eq_ignoring_ascii_case, joined, lowercase,
    lowercase_of, opt_text, same_text_ignoring_ascii_case,
};

verus! {

/// Whether a thread accepts the attention of its readers; informational only.
#[derive(Debug, Clone, Copy, PartialEq, Eq, Structural)]
pub enum ThreadStatus {
    Open,
    Closed,
}

impl Default for ThreadStatus {
    fn default() -> (s: Self)
        ensures
            s == ThreadStatus::Open,
    {
        ThreadStatus::Open
    }
}

impl ThreadStatus {
    /// The name of the status, in lower case.
    pub open spec fn text(&self) -> Seq<char> {
        match self {
            ThreadStatus::Open => "open"@,
            ThreadStatus::Closed => "closed"@,
        }
    }

    /// The status that a text names, the case of ASCII letters disregarded.
    pub open spec fn named(s: Seq<char>) -> Option<ThreadStatus> {
        if eq_ignoring_ascii_case(s, "open"@) {
            Some(ThreadStatus::Open)
        } else if eq_ignoring_ascii_case(s, "closed"@) {
            Some(ThreadStatus::Closed)
        } else {
            None
        }
    }

    /// The name of the status, in lower case.
    pub fn as_str(&self) -> (s: &'static str)
        ensures
            s@ == self.text(),
    {
        match self {
            ThreadStatus::Open => "open",
            ThreadStatus::Closed => "closed",
        }
    }

    /// The name of the status, in lower case.
    pub fn to_string(&self) -> (s: String)
        ensures
            s@ == self.text(),
    {
        String::from_str(self.as_str())
    }

    /// The status that `s` names in any mix of cases, or a message that quotes `s`
    /// in lower case.
    pub fn from_str(s: &str) -> (r: Result<ThreadStatus, String>)
        ensures
            match r {
                Ok(v) => ThreadStatus::named(s@) == Some(v),
                Err(msg) => ThreadStatus::named(s@) is None && msg@
                    == "unknown thread status: "@ + lowercase_of(s@),
            },
    {
        if same_text_ignoring_ascii_case(s, "open") {
            Ok(ThreadStatus::Open)
        } else if same_text_ignoring_ascii_case(s, "closed") {
            Ok(ThreadStatus::Closed)
        } else {
            let lower = lowercase(s);
            Err(joined("unknown thread status: ", lower.as_str()))
        }
    }
}

/// Where the work of a thread stands.
#[derive(Debug, Clone, Copy, PartialEq, Eq, Structural)]
pub enum ThreadPhase {
    Planning,
    Implementing,
    Reviewing,
    Done,
}

impl ThreadPhase {
    /// The name of the phase, in lower case.
    pub open spec fn text(&self) -> Seq<char> {
        match self {
            ThreadPhase::Planning => "planning"@,
            ThreadPhase::Implementing => "implementing"@,
            ThreadPhase::Reviewing => "reviewing"@,
            ThreadPhase::Done => "done"@,
        }
    }

    /// The phase that a text names, the case of ASCII letters disregarded.
    pub open spec fn named(s: Seq<char>) -> Option<ThreadPhase> {
        if eq_ignoring_ascii_case(s, "planning"@) {
            Some(ThreadPhase::Planning)
        } else if eq_ignoring_ascii_case(s, "implementing"@) {
            Some(ThreadPhase::Implementing)
        } else if eq_ignoring_ascii_case(s, "reviewing"@) {
            Some(ThreadPhase::Reviewing)
        } else if eq_ignoring_ascii_case(s, "done"@) {
            Some(ThreadPhase::Done)
        } else {
            None
        }
    }

    /// The name of the phase, in lower case.
    pub fn as_str(&self) -> (s: &'static str)
        ensures
            s@ == self.text(),
    {
        match self {
            ThreadPhase::Planning => "planning",
            ThreadPhase::Implementing => "implementing",
            ThreadPhase::Reviewing => "reviewing",
            ThreadPhase::Done => "done",
        }
    }

    /// The name of the phase, in lower case.
    pub fn to_string(&self) -> (s: String)
        ensures
            s@ == self.text(),
    {
        String::from_str(self.as_str())
    }

    /// The phase that `s` names in any mix of cases, or a message that quotes `s`
    /// in lower case.
    pub fn from_str(s: &str) -> (r: Result<ThreadPhase, String>)
        ensures
            match r {
                Ok(v) => ThreadPhase::named(s@) == Some(v),
                Err(msg) => ThreadPhase::named(s@) is None && msg@ == "unknown thread phase: "@
                    + lowercase_of(s@),
            },
    {
        if same_text_ignoring_ascii_case(s, "planning") {
            Ok(ThreadPhase::Planning)
        } else if same_text_ignoring_ascii_case(s, "implementing") {
            Ok(ThreadPhase::Implementing)
        } else if same_text_ignoring_ascii_case(s, "reviewing") {
            Ok(ThreadPhase::Reviewing)
        } else if same_text_ignoring_ascii_case(s, "done") {
            Ok(ThreadPhase::Done)
        } else {
            let lower = lowercase(s);
            Err(joined("unknown thread phase: ", lower.as_str()))
        }
    }
}

/// Who speaks in a message.
#[derive(Debug, Clone, Copy, PartialEq, Eq, Structural)]
pub enum Role {
    User,
    Assistant,
    System,
    Tool,
}

impl Role {
    /// The name of the role, in lower case.
    pub open spec fn text(&self) -> Seq<char> {
        match self {
            Role::User => "user"@,
            Role::Assistant => "assistant"@,
            Role::System => "system"@,
            Role::Tool => "tool"@,
        }
    }

    /// The role that a text names, the case of ASCII letters disregarded.
    pub open spec fn named(s: Seq<char>) -> Option<Role> {
        if eq_ignoring_ascii_case(s, "user"@) {
            Some(Role::User)
        } else if eq_ignoring_ascii_case(s, "assistant"@) {
            Some(Role::Assistant)
        } else if eq_ignoring_ascii_case(s, "system"@) {
            Some(Role::System)
        } else if eq_ignoring_ascii_case(s, "tool"@) {
            Some(Role::Tool)
        } else {
            None
        }
    }

    /// The name of the role, in lower case.
    pub fn as_str(&self) -> (s: &'static str)
        ensures
            s@ == self.text(),
    {
        match self {
            Role::User => "user",
            Role::Assistant => "assistant",
            Role::System => "system",
            Role::Tool => "tool",
        }
    }

    /// The name of the role, in lower case.
    pub fn to_string(&self) -> (s: String)
        ensures
            s@ == self.text(),
    {
        String::from_str(self.as_str())
    }

    /// The role that `s` names in any mix of cases, or a message that quotes `s` in
    /// lower case.
    pub fn from_str(s: &str) -> (r: Result<Role, String>)
        ensures
            match r {
                Ok(v) => Role::named(s@) == Some(v),
                Err(msg) => Role::named(s@) is None && msg@ == "unknown role: "@ + lowercase_of(
                    s@,
                ),
            },
    {
        if same_text_ignoring_ascii_case(s, "user") {
            Ok(Role::User)
        } else if same_text_ignoring_ascii_case(s, "assistant") {
            Ok(Role::Assistant)
        } else if same_text_ignoring_ascii_case(s, "system") {
            Ok(Role::System)
        } else if same_text_ignoring_ascii_case(s, "tool") {
            Ok(Role::Tool)
        } else {
            let lower = lowercase(s);
            Err(joined("unknown role: ", lower.as_str()))
        }
    }
}

/// A named container of messages.
#[derive(Debug, Clone, PartialEq, Eq)]
pub struct Thread {
    pub id: String,
    pub name: Option<String>,
    pub title: String,
    pub source_url: Option<String>,
    pub status: ThreadStatus,
    pub phase: Option<ThreadPhase>,
    pub created_at: Timestamp,
    pub updated_at: Timestamp,
}

/// What a thread holds, as mathematical values.
pub struct ThreadView {
    pub id: Seq<char>,
    pub name: Option<Seq<char>>,
    pub title: Seq<char>,
    pub source_url: Option<Seq<char>>,
    pub status: ThreadStatus,
    pub phase: Option<ThreadPhase>,
    pub created_at: Timestamp,
    pub updated_at: Timestamp,
}

impl View for Thread {
    type V = ThreadView;

    open spec fn view(&self) -> ThreadView {
        ThreadView {
            id: self.id@,
            name: opt_text(self.name),
            title: self.title@,
            source_url: opt_text(self.source_url),
            status: self.status,
            phase: self.phase,
            created_at: self.created_at,
            updated_at: self.updated_at,
        }
    }
}

impl Thread {
    /// A thread was not updated before it was created.
    pub open spec fn wf(&self) -> bool {
        self.created_at.at_or_before(&self.updated_at)
    }

    /// A copy of the thread.
    pub fn duplicate(&self) -> (r: Thread)
        ensures
            r == *self,
    {
        Thread {
            id: self.id.clone(),
            name: copy_opt(&self.name),
            title: self.title.clone(),
            source_url: copy_opt(&self.source_url),
            status: self.status,
            phase: self.phase,
            created_at: self.created_at,
            updated_at: self.updated_at,
        }
    }
}

/// One timestamped record of content in a thread. `metadata`, where present, is the
/// text of a JSON document and is kept letter for letter.
#[derive(Debug, Clone, PartialEq, Eq)]
pub struct Message {
    pub id: String,
    pub thread_id: String,
    pub session_id: Option<String>,
    pub sender: Option<String>,
    pub role: Role,
    pub content: String,
    pub metadata: Option<String>,
    pub parent_id: Option<String>,
    pub source: Option<String>,
    pub created_at: Timestamp,
    pub updated_at: Timestamp,
}

/// What a message holds, as mathematical values.
pub struct MessageView {
    pub id: Seq<char>,
    pub thread_id: Seq<char>,
    pub session_id: Option<Seq<char>>,
    pub sender: Option<Seq<char>>,
    pub role: Role,
    pub content: Seq<char>,
    pub metadata: Option<Seq<char>>,
    pub parent_id: Option<Seq<char>>,
    pub source: Option<Seq<char>>,
    pub created_at: Timestamp,
    pub updated_at: Timestamp,
}

impl View for Message {
    type V = MessageView;

    open spec fn view(&self) -> MessageView {
        MessageView {
            id: self.id@,
            thread_id: self.thread_id@,
            session_id: opt_text(self.session_id),
            sender: opt_text(self.sender),
            role: self.role,
            content: self.content@,
            metadata: opt_text(self.metadata),
            parent_id: opt_text(self.parent_id),
            source: opt_text(self.source),
            created_at: self.created_at,
            updated_at: self.updated_at,
        }
    }
}

impl Message {
    /// The metadata of a message, where it has any, is a JSON document.
    pub open spec fn wf(&self) -> bool {
        match self.metadata {
            Some(text) => json_valid(text@),
            None => true,
        }
    }

    /// A copy of the message.
    pub fn duplicate(&self) -> (r: Message)
        ensures
            r == *self,
    {
        Message {
            id: self.id.clone(),
            thread_id: self.thread_id.clone(),
            session_id: copy_opt(&self.session_id),
            sender: copy_opt(&self.sender),
            role: self.role,
            content: self.content.clone(),
            metadata: copy_opt(&self.metadata),
            parent_id: copy_opt(&self.parent_id),
            source: copy_opt(&self.source),
            created_at: self.created_at,
            updated_at: self.updated_at,
        }
    }
}

/// Why a message cannot be written: the first precondition that it fails.
pub open spec fn message_defect(m: MessageView) -> Option<Seq<char>> {
    if m.metadata matches Some(text) && !json_valid(text) {
        Some("metadata is not valid JSON"@)
    } else if stored_text(m.created_at) is None || stored_text(m.updated_at) is None {
        Some("timestamp out of range"@)
    } else {
        None
    }
}

/// Why a thread cannot be written: the first precondition that it fails.
pub open spec fn thread_defect(t: ThreadView) -> Option<Seq<char>> {
    if !t.created_at.at_or_before(&t.updated_at) {
        Some("thread is updated before it is created"@)
    } else if stored_text(t.created_at) is None || stored_text(t.updated_at) is None {
        Some("timestamp out of range"@)
    } else {
        None
    }
}

/// Texts of different lengths differ even when case is disregarded.
proof fn lemma_lengths_tell_apart(a: Seq<char>, b: Seq<char>)
    requires
        a.len() != b.len(),
    ensures
        !eq_ignoring_ascii_case(a, b),
{
    assert(ascii_lower_text(a).len() != ascii_lower_text(b).len());
}

/// Texts whose characters at one place differ beyond case differ when case is
/// disregarded.
proof fn lemma_place_tells_apart(a: Seq<char>, b: Seq<char>, i: int)
    requires
        0 <= i < a.len(),
        i < b.len(),
        ascii_lower(a[i]) != ascii_lower(b[i]),
    ensures
        !eq_ignoring_ascii_case(a, b),
{
    assert(ascii_lower_text(a)[i] != ascii_lower_text(b)[i]);
}

/// The name of each status names that status again.
pub proof fn lemma_status_name_round_trip(s: ThreadStatus)
    ensures
        ThreadStatus::named(s.text()) == Some(s),
{
    reveal_strlit("open");
    reveal_strlit("closed");
    lemma_lengths_tell_apart("closed"@, "open"@);
}

/// The name of each phase names that phase again.
pub proof fn lemma_phase_name_round_trip(p: ThreadPhase)
    ensures
        ThreadPhase::named(p.text()) == Some(p),
{
    reveal_strlit("planning");
    reveal_strlit("implementing");
    reveal_strlit("reviewing");
    reveal_strlit("done");
    lemma_lengths_tell_apart("implementing"@, "planning"@);
    lemma_lengths_tell_apart("reviewing"@, "planning"@);
    lemma_lengths_tell_apart("reviewing"@, "implementing"@);
    lemma_lengths_tell_apart("done"@, "planning"@);
    lemma_lengths_tell_apart("done"@, "implementing"@);
    lemma_lengths_tell_apart("done"@, "reviewing"@);
}

/// The name of each role names that role again.
pub proof fn lemma_role_name_round_trip(r: Role)
    ensures
        Role::named(r.text()) == Some(r),
{
    reveal_strlit("user");
    reveal_strlit("assistant");
    reveal_strlit("system");
    reveal_strlit("tool");
    lemma_lengths_tell_apart("assistant"@, "user"@);
    lemma_lengths_tell_apart("system"@, "user"@);
    lemma_lengths_tell_apart("system"@, "assistant"@);
    lemma_place_tells_apart("tool"@, "user"@, 0);
    lemma_lengths_tell_apart("tool"@, "assistant"@);
    lemma_lengths_tell_apart("tool"@, "system"@);
}

} // verus!
