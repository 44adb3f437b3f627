//! Turning an event reported by an agent's hook into at most one stored message.
//!
//! An event is a JSON object. Its name decides what is stored: the prompt of a user,
//! the answers to a question put to the user, the last reply of an agent as its
//! transcript has it, or a note that the event came. The end of a session whose
//! transcript has no reply is stored as the note `[session stop]`.

use vstd::prelude::*;
use crate::domain::entity::{Message, MessageView, Role, Thread, ThreadStatus, ThreadView};
use crate::domain::error::DomainError;

use crate::domain::ident::{new_id, short_id, shorten_id};
use crate::domain::instant::{now, Timestamp};
use crate::domain::json::{json_tree, parse_json, Json, JsonNode, Member};
use crate::domain::repository::{MessageRepository, ThreadRepository};
use crate::usecase::thread::{found_closed, shows_closed};
use crate::domain::text::{
    join_with, joined, joined_with, opt_str, opt_text, pieces, same_text, split_on, starts_with,
    texts_of,
};

verus! {

/// The sender under which the replies of the main agent are stored.
pub const MAIN_SENDER: &'static str = "main-agent";

/// The text that a content block holds: the `text` of a block of type `text`.
pub open spec fn block_text(block: Json) -> Option<Seq<char>> {
    if block.text_member("type"@) == Some("text"@) {
        block.text_member("text"@)
    } else {
        None
    }
}

/// The texts of the blocks that hold one, in their order.
pub open spec fn block_texts(blocks: Seq<Json>) -> Seq<Seq<char>>
    decreases blocks.len(),
{
    if blocks.len() == 0 {
        Seq::empty()
    } else {
        match block_text(blocks.last()) {
            Some(t) => block_texts(blocks.drop_last()).push(t),
            None => block_texts(blocks.drop_last()),
        }
    }
}

/// The text of a transcript entry: its `content` where that is a string that is not
/// empty; the texts of its blocks, one per line, where it is a list that holds any.
pub open spec fn entry_text(entry: Json) -> Option<Seq<char>> {
    match entry.member("content"@) {
        Some(content) => match content.node {
            JsonNode::Text(s) => if s@.len() == 0 {
                None
            } else {
                Some(s@)
            },
            JsonNode::Array(blocks) => if block_texts(blocks@).len() == 0 {
                None
            } else {
                Some(joined_with(block_texts(blocks@), "\n"@))
            },
            _ => None,
        },
        None => None,
    }
}

/// What an entry contributes as a reply of the assistant: its text, where its role
/// is `assistant` and it has one.
pub open spec fn assistant_text(entry: Json) -> Option<Seq<char>> {
    if entry.text_member("role"@) == Some("assistant"@) {
        entry_text(entry)
    } else {
        None
    }
}

/// The text of the last entry that is a reply of the assistant.
pub open spec fn last_assistant_text(entries: Seq<Json>) -> Option<Seq<char>>
    decreases entries.len(),
{
    if entries.len() == 0 {
        None
    } else {
        match assistant_text(entries.last()) {
            Some(t) => Some(t),
            None => last_assistant_text(entries.drop_last()),
        }
    }
}

/// An answer as it is quoted: its text where it is a string, its compact JSON text
/// otherwise.
pub open spec fn answer_text(answer: Json) -> Seq<char> {
    match answer.text() {
        Some(s) => s,
        None => answer.compact@,
    }
}

/// The line that quotes one question with its answer.
pub open spec fn answer_line(m: Member) -> Seq<char> {
    "Q: "@ + m.name@ + " / A: "@ + answer_text(m.value)
}

/// The lines that quote the questions with their answers, in their order.
pub open spec fn answer_lines(members: Seq<Member>) -> Seq<Seq<char>> {
    Seq::new(members.len(), |i: int| answer_line(members[i]))
}

/// The record of a decision: the answers of `response` quoted on one line, where it
/// has an object of answers that is not empty.
pub open spec fn decision_text(response: Json) -> Option<Seq<char>> {
    match response.member("answers"@) {
        Some(answers) => match answers.node {
            JsonNode::Object(members) => if members@.len() == 0 {
                None
            } else {
                Some("[決定] "@ + joined_with(answer_lines(members@), " | "@))
            },
            _ => None,
        },
        None => None,
    }
}

/// The text that a content block holds.
pub fn text_of_block(block: &Json) -> (r: Option<&str>)
    ensures
        match r {
            Some(s) => block_text(*block) == Some(s@),
            None => block_text(*block) is None,
        },
{
    match block.get_str("type") {
        Some(kind) => if same_text(kind, "text") {
            block.get_str("text")
        } else {
            None
        },
        None => None,
    }
}

/// The text of a transcript entry.
pub fn extract_text_content(entry: &Json) -> (r: Option<String>)
    ensures
        match r {
            Some(s) => entry_text(*entry) == Some(s@),
            None => entry_text(*entry) is None,
        },
{
    let content = match entry.get("content") {
        Some(c) => c,
        None => { return None; },
    };
    match &content.node {
        JsonNode::Text(s) => {
            if s.as_str().unicode_len() == 0 {
                None
            } else {
                Some(s.clone())
            }
        },
        JsonNode::Array(blocks) => {
            let mut texts: Vec<String> = Vec::new();
            let mut i: usize = 0;
            proof {
                assert(blocks@.take(0) =~= Seq::<Json>::empty());
            }
            while i < blocks.len()
                invariant
                    i <= blocks.len(),
                    texts_of(texts@) == block_texts(blocks@.take(i as int)),
                decreases blocks.len() - i,
            {
                proof {
                    assert(blocks@.take(i + 1).drop_last() =~= blocks@.take(i as int));
                    assert(blocks@.take(i + 1).last() == blocks@[i as int]);
                }
                match text_of_block(&blocks[i]) {
                    Some(t) => {
                        let ghost before = texts_of(texts@);
                        texts.push(String::from_str(t));
                        assert(texts_of(texts@) =~= before.push(t@));
                    },
                    None => {},
                }
                i += 1;
            }
            proof {
                assert(blocks@.take(blocks.len() as int) =~= blocks@);
            }
            if texts.len() == 0 {
                None
            } else {
                Some(join_with(&texts, "\n"))
            }
        },
        _ => None,
    }
}

/// The text of the last entry of a transcript that is a reply of the assistant.
pub fn last_assistant_reply(entries: &Vec<Json>) -> (r: Option<String>)
    ensures
        match r {
            Some(s) => last_assistant_text(entries@) == Some(s@),
            None => last_assistant_text(entries@) is None,
        },
{
    let mut i: usize = entries.len();
    proof {
        assert(entries@.take(entries.len() as int) =~= entries@);
    }
    while i > 0
        invariant
            i <= entries.len(),
            last_assistant_text(entries@) == last_assistant_text(entries@.take(i as int)),
        decreases i,
    {
        i -= 1;
        proof {
            assert(entries@.take(i + 1).drop_last() =~= entries@.take(i as int));
            assert(entries@.take(i + 1).last() == entries@[i as int]);
        }
        let entry = &entries[i];
        let is_assistant = match entry.get_str("role") {
            Some(role) => same_text(role, "assistant"),
            None => false,
        };
        if is_assistant {
            match extract_text_content(entry) {
                Some(text) => {
                    return Some(text);
                },
                None => {},
            }
        }
    }
    None
}

/// The record of a decision made of the answers of `response`.
pub fn parse_ask_user_question(response: &Json) -> (r: Option<String>)
    ensures
        match r {
            Some(s) => decision_text(*response) == Some(s@),
            None => decision_text(*response) is None,
        },
{
    let answers = match response.get("answers") {
        Some(a) => a,
        None => { return None; },
    };
    match &answers.node {
        JsonNode::Object(members) => {
            if members.len() == 0 {
                return None;
            }
            let mut lines: Vec<String> = Vec::new();
            let mut i: usize = 0;
            while i < members.len()
                invariant
                    i <= members.len(),
                    lines@.len() == i,
                    forall|k: int|
                        0 <= k < i ==> (#[trigger] lines@[k])@ == answer_line(members@[k]),
                decreases members.len() - i,
            {
                let m = &members[i];
                let mut line = String::from_str("Q: ");
                line.append(m.name.as_str());
                line.append(" / A: ");
                match m.value.as_str() {
                    Some(s) => line.append(s),
                    None => line.append(m.value.compact.as_str()),
                }
                lines.push(line);
                i += 1;
            }
            assert(texts_of(lines@) =~= answer_lines(members@));
            let body = join_with(&lines, " | ");
            Some(joined("[決定] ", body.as_str()))
        },
        _ => None,
    }
}

/// The entries of a transcript: the JSON values of its lines, in their order; a
/// line that is no JSON value is passed over.
pub open spec fn parsed_lines(lines: Seq<Seq<char>>) -> Seq<Json>
    decreases lines.len(),
{
    if lines.len() == 0 {
        Seq::empty()
    } else {
        match json_tree(lines.last()) {
            Some(j) => parsed_lines(lines.drop_last()).push(j),
            None => parsed_lines(lines.drop_last()),
        }
    }
}

/// The entries of the transcript `text`, which holds one JSON value per line.
pub open spec fn transcript_entries_of(text: Seq<char>) -> Seq<Json> {
    parsed_lines(pieces(text, '\n'))
}

/// The entries of the transcript `text`.
pub fn transcript_entries(text: &str) -> (entries: Vec<Json>)
    ensures
        entries@ == transcript_entries_of(text@),
{
    let lines = split_on(text, '\n');
    let mut entries: Vec<Json> = Vec::new();
    let mut i: usize = 0;
    proof {
        assert(texts_of(lines@).take(0) =~= Seq::<Seq<char>>::empty());
    }
    while i < lines.len()
        invariant
            i <= lines.len(),
            entries@ == parsed_lines(texts_of(lines@).take(i as int)),
        decreases lines.len() - i,
    {
        proof {
            let all = texts_of(lines@);
            assert(all.take(i + 1).drop_last() =~= all.take(i as int));
            assert(all.take(i + 1).last() == lines@[i as int]@);
        }
        match parse_json(lines[i].as_str()) {
            Ok(j) => {
                entries.push(j);
            },
            Err(_) => {},
        }
        i += 1;
    }
    proof {
        assert(texts_of(lines@).take(lines.len() as int) =~= texts_of(lines@));
    }
    entries
}

/// What is to be stored for an event, before it has a thread and an identifier.
#[derive(Debug, Clone, PartialEq, Eq)]
pub struct Draft {
    pub role: Role,
    pub content: String,
    pub sender: Option<String>,
    pub source: String,
}

/// What a draft holds, as mathematical values.
pub struct DraftView {
    pub role: Role,
    pub content: Seq<char>,
    pub sender: Option<Seq<char>>,
    pub source: Seq<char>,
}

impl View for Draft {
    type V = DraftView;

    open spec fn view(&self) -> DraftView {
        DraftView {
            role: self.role,
            content: self.content@,
            sender: opt_text(self.sender),
            source: self.source@,
        }
    }
}

/// The name of an event, or `Unknown` where it has none.
pub open spec fn event_name(event: Json) -> Seq<char> {
    match event.text_member("hook_event_name"@) {
        Some(n) => n,
        None => "Unknown"@,
    }
}

/// The member of an event that names the transcript to read for it, if the event is
/// one that is answered from a transcript.
pub open spec fn transcript_key(name: Seq<char>) -> Option<Seq<char>> {
    if name == "Stop"@ {
        Some("transcript_path"@)
    } else if name == "SubagentStop"@ {
        Some("agent_transcript_path"@)
    } else {
        None
    }
}

/// The path of the transcript that is to be read for an event, if any.
pub open spec fn transcript_path_of(event: Json) -> Option<Seq<char>> {
    match transcript_key(event_name(event)) {
        Some(key) => event.text_member(key),
        None => None,
    }
}

/// The object that holds the answers of an event: what its `tool_response` denotes
/// where that is a string, the `tool_response` itself otherwise.
pub open spec fn response_of(event: Json) -> Option<Json> {
    match event.member("tool_response"@) {
        Some(response) => match response.text() {
            Some(text) => json_tree(text),
            None => Some(response),
        },
        None => None,
    }
}

/// The text of a member, or `fallback` where the event has no such text.
pub open spec fn text_or(event: Json, key: Seq<char>, fallback: Seq<char>) -> Seq<char> {
    match event.text_member(key) {
        Some(t) => t,
        None => fallback,
    }
}

/// The draft for an event before its content is looked at. `reply` is the last reply
/// of the assistant in the transcript read for the event, if one was read and has
/// one.
pub open spec fn raw_draft_of(event: Json, reply: Option<Seq<char>>) -> Option<DraftView> {
    let name = event_name(event);
    if name == "UserPromptSubmit"@ {
        Some(
            DraftView {
                role: Role::User,
                content: text_or(event, "prompt"@, Seq::empty()),
                sender: None,
                source: "user"@,
            },
        )
    } else if name == "PostToolUse"@ {
        if event.text_member("tool_name"@) == Some("AskUserQuestion"@) {
            match response_of(event) {
                Some(response) => match decision_text(response) {
                    Some(content) => Some(
                        DraftView { role: Role::User, content, sender: None, source: "user"@ },
                    ),
                    None => None,
                },
                None => None,
            }
        } else {
            None
        }
    } else if name == "Stop"@ {
        match reply {
            Some(content) => Some(
                DraftView {
                    role: Role::Assistant,
                    content,
                    sender: Some(MAIN_SENDER@),
                    source: "agent"@,
                },
            ),
            None => Some(
                DraftView {
                    role: Role::Assistant,
                    content: "[session stop]"@,
                    sender: None,
                    source: "system"@,
                },
            ),
        }
    } else if name == "SubagentStop"@ {
        match reply {
            Some(content) => Some(
                DraftView {
                    role: Role::Assistant,
                    content,
                    sender: Some("subagent:"@ + text_or(event, "agent_type"@, "unknown"@)),
                    source: "agent"@,
                },
            ),
            None => Some(
                DraftView {
                    role: Role::System,
                    content: "[SubagentStop] event received"@,
                    sender: None,
                    source: "system"@,
                },
            ),
        }
    } else {
        Some(
            DraftView {
                role: Role::System,
                content: "["@ + name + "] event received"@,
                sender: None,
                source: "system"@,
            },
        )
    }
}

/// The draft for an event: none where the event asks for none or its content would
/// be empty.
pub open spec fn draft_of(event: Json, reply: Option<Seq<char>>) -> Option<DraftView> {
    match raw_draft_of(event, reply) {
        Some(d) => if d.content.len() == 0 {
            None
        } else {
            Some(d)
        },
        None => None,
    }
}

/// The last reply of the assistant in a transcript, if a transcript was read and
/// has one.
pub open spec fn reply_in(transcript: Option<Seq<char>>) -> Option<Seq<char>> {
    match transcript {
        Some(text) => last_assistant_text(transcript_entries_of(text)),
        None => None,
    }
}

/// The path of the transcript that is to be read for `event`, if any.
pub fn transcript_path(event: &Json) -> (r: Option<String>)
    ensures
        opt_text(r) == transcript_path_of(*event),
{
    let name = match event.get_str("hook_event_name") {
        Some(n) => n,
        None => "Unknown",
    };
    let key = if same_text(name, "Stop") {
        "transcript_path"
    } else if same_text(name, "SubagentStop") {
        "agent_transcript_path"
    } else {
        return None;
    };
    match event.get_str(key) {
        Some(p) => Some(String::from_str(p)),
        None => None,
    }
}

/// The draft for `event`, where `reply` is the last reply of the assistant in the
/// transcript read for it.
pub fn draft_for(event: &Json, reply: Option<String>) -> (r: Option<Draft>)
    ensures
        match r {
            Some(d) => draft_of(*event, opt_text(reply)) == Some(d@),
            None => draft_of(*event, opt_text(reply)) is None,
        },
{
    let name = match event.get_str("hook_event_name") {
        Some(n) => n,
        None => "Unknown",
    };
    let raw: Option<Draft> = if same_text(name, "UserPromptSubmit") {
        let prompt = match event.get_str("prompt") {
            Some(p) => String::from_str(p),
            None => String::new(),
        };
        Some(
            Draft {
                role: Role::User,
                content: prompt,
                sender: None,
                source: String::from_str("user"),
            },
        )
    } else if same_text(name, "PostToolUse") {
        let asks = match event.get_str("tool_name") {
            Some(t) => same_text(t, "AskUserQuestion"),
            None => false,
        };
        if asks {
            let decision = match event.get("tool_response") {
                Some(response) => match response.as_str() {
                    Some(text) => match parse_json(text) {
                        Ok(nested) => parse_ask_user_question(&nested),
                        Err(_) => None,
                    },
                    None => parse_ask_user_question(response),
                },
                None => None,
            };
            match decision {
                Some(content) => Some(
                    Draft {
                        role: Role::User,
                        content,
                        sender: None,
                        source: String::from_str("user"),
                    },
                ),
                None => None,
            }
        } else {
            None
        }
    } else if same_text(name, "Stop") {
        match reply {
            Some(content) => Some(
                Draft {
                    role: Role::Assistant,
                    content,
                    sender: Some(String::from_str(MAIN_SENDER)),
                    source: String::from_str("agent"),
                },
            ),
            None => Some(
                Draft {
                    role: Role::Assistant,
                    content: String::from_str("[session stop]"),
                    sender: None,
                    source: String::from_str("system"),
                },
            ),
        }
    } else if same_text(name, "SubagentStop") {
        match reply {
            Some(content) => {
                let agent_type = match event.get_str("agent_type") {
                    Some(t) => t,
                    None => "unknown",
                };
                Some(
                    Draft {
                        role: Role::Assistant,
                        content,
                        sender: Some(joined("subagent:", agent_type)),
                        source: String::from_str("agent"),
                    },
                )
            },
            None => Some(
                Draft {
                    role: Role::System,
                    content: String::from_str("[SubagentStop] event received"),
                    sender: None,
                    source: String::from_str("system"),
                },
            ),
        }
    } else {
        let head = joined("[", name);
        Some(
            Draft {
                role: Role::System,
                content: joined(head.as_str(), "] event received"),
                sender: None,
                source: String::from_str("system"),
            },
        )
    };
    match raw {
        Some(d) => {
            if d.content.as_str().unicode_len() == 0 {
                None
            } else {
                Some(d)
            }
        },
        None => None,
    }
}

/// The thread in which an event is stored: the one given, or the one named after the
/// session of the event.
pub open spec fn thread_for(given: Option<Seq<char>>, event: Json) -> Option<Seq<char>> {
    match given {
        Some(t) => Some(t),
        None => event.text_member("session_id"@),
    }
}

/// The thread that stands for a session, made at the instant `at`.
pub open spec fn session_thread(thread_id: Seq<char>, at: Timestamp) -> ThreadView {
    ThreadView {
        id: thread_id,
        name: None,
        title: "Session "@ + short_id(thread_id),
        source_url: None,
        status: ThreadStatus::Open,
        phase: None,
        created_at: at,
        updated_at: at,
    }
}

/// The message that stores a draft under the identifier `id` at the instant `at`.
pub open spec fn drafted_message(
    id: Seq<char>,
    at: Timestamp,
    thread_id: Seq<char>,
    session_id: Option<Seq<char>>,
    draft: DraftView,
) -> MessageView {
    MessageView {
        id,
        thread_id,
        session_id,
        sender: draft.sender,
        role: draft.role,
        content: draft.content,
        metadata: None,
        parent_id: None,
        source: Some(draft.source),
        created_at: at,
        updated_at: at,
    }
}

/// The thread that stands for a session.
pub fn compose_session_thread(thread_id: &str, at: Timestamp) -> (t: Thread)
    ensures
        t@ == session_thread(thread_id@, at),
        t.wf(),
{
    let short = shorten_id(thread_id);
    Thread {
        id: String::from_str(thread_id),
        name: None,
        title: joined("Session ", short.as_str()),
        source_url: None,
        status: ThreadStatus::Open,
        phase: None,
        created_at: at,
        updated_at: at,
    }
}

/// The message that stores `draft`.
pub fn compose_drafted_message(
    id: String,
    at: Timestamp,
    thread_id: String,
    session_id: Option<String>,
    draft: Draft,
) -> (m: Message)
    ensures
        m@ == drafted_message(id@, at, thread_id@, opt_text(session_id), draft@),
        m.wf(),
{
    Message {
        id,
        thread_id,
        session_id,
        sender: draft.sender,
        role: draft.role,
        content: draft.content,
        metadata: None,
        parent_id: None,
        source: Some(draft.source),
        created_at: at,
        updated_at: at,
    }
}

/// What is to be stored for an event, and where.
#[derive(Debug, Clone, PartialEq, Eq)]
pub struct Entry {
    /// The thread that takes the message.
    pub thread_id: String,
    /// The session of the event, where it names one.
    pub session_id: Option<String>,
    /// The message, before it has an identifier.
    pub draft: Draft,
}

/// `entry` is what `event` asks to be stored: in the thread given by the caller, or
/// else in the thread named after the session of the event; under the session of
/// the event; the draft made for the event.
pub open spec fn is_entry_for(
    entry: Entry,
    given: Option<Seq<char>>,
    event: Json,
    reply: Option<Seq<char>>,
) -> bool {
    &&& thread_for(given, event) == Some(entry.thread_id@)
    &&& opt_text(entry.session_id) == event.text_member("session_id"@)
    &&& draft_of(event, reply) == Some(entry.draft@)
}

/// `r` is what the event written in `text` leads to before anything is handed to a
/// store.
///
/// A text that is no JSON is a parse error that begins with `invalid JSON: `. An
/// event without a thread, given or named by its session, is the parse error that
/// says so. An event that asks for nothing leads to no entry. Every other event
/// leads to its entry.
pub open spec fn is_plan(
    r: Result<Option<Entry>, DomainError>,
    given: Option<Seq<char>>,
    text: Seq<char>,
    transcript: Option<Seq<char>>,
) -> bool {
    match json_tree(text) {
        None => r matches Err(DomainError::Parse(why)) && starts_with(why@, "invalid JSON: "@),
        Some(event) => match thread_for(given, event) {
            None => r matches Err(DomainError::Parse(why)) && why@
                == "no session_id and no --thread provided"@,
            Some(_) => match draft_of(event, reply_in(transcript)) {
                None => r matches Ok(None),
                Some(_) => r matches Ok(Some(entry)) && is_entry_for(
                    entry,
                    given,
                    event,
                    reply_in(transcript),
                ),
            },
        },
    }
}

/// What the event `json_input` asks to be stored, and in which thread.
pub fn plan_entry(
    thread_id_override: Option<&str>,
    json_input: &str,
    transcript: Option<&str>,
) -> (r: Result<Option<Entry>, DomainError>)
    ensures
        is_plan(r, opt_str(thread_id_override), json_input@, opt_str(transcript)),
{
    let event = match parse_json(json_input) {
        Ok(j) => j,
        Err(why) => {
            let text = joined("invalid JSON: ", why.as_str());
            proof {
                assert(text@.subrange(0, 0 + "invalid JSON: "@.len() as int) =~= "invalid JSON: "@);
            }
            return Err(DomainError::Parse(text));
        },
    };
    let session_id: Option<String> = match event.get_str("session_id") {
        Some(s) => Some(String::from_str(s)),
        None => None,
    };
    let thread_id: String = match thread_id_override {
        Some(t) => String::from_str(t),
        None => match &session_id {
            Some(s) => s.clone(),
            None => {
                return Err(
                    DomainError::Parse(String::from_str("no session_id and no --thread provided")),
                );
            },
        },
    };
    let reply = match transcript {
        Some(text) => {
            let entries = transcript_entries(text);
            last_assistant_reply(&entries)
        },
        None => None,
    };
    match draft_for(&event, reply) {
        Some(draft) => Ok(Some(Entry { thread_id, session_id, draft })),
        None => Ok(None),
    }
}

/// What became of an event.
#[derive(Debug, Clone, Copy, PartialEq, Eq, Structural)]
pub struct IngestOutcome {
    /// The number of messages stored: one, or none where the event asks for none.
    pub stored: usize,
    /// The thread that took the message is closed. This is for the caller to say;
    /// a closed thread takes messages like an open one.
    pub thread_closed: bool,
}

/// What is answered for an entry once the store of messages has answered: its
/// error, or its number together with whether the thread was found closed.
pub open spec fn ingest_answer(stored: Result<usize, DomainError>, closed: bool) -> Result<
    IngestOutcome,
    DomainError,
> {
    match stored {
        Ok(n) => Ok(IngestOutcome { stored: n, thread_closed: closed }),
        Err(e) => Err(e),
    }
}

/// The ingestion of hook events, over any store of threads and any store of
/// messages.
pub struct HookUseCase<T: ThreadRepository, R: MessageRepository> {
    pub thread_repo: T,
    pub repo: R,
}

impl<T: ThreadRepository, R: MessageRepository> HookUseCase<T, R> {
    /// The ingestion over the two stores.
    pub fn new(thread_repo: T, repo: R) -> (r: Self)
        ensures
            r.thread_repo == thread_repo,
            r.repo == repo,
    {
        HookUseCase { thread_repo, repo }
    }

    /// `r` is what storing `entry` answers.
    ///
    /// The store of threads is asked first to write the thread that stands for the
    /// entry's thread if it is missing; its error ends the work. It is then asked
    /// for that thread. Last the store of messages is asked to write, as a batch of
    /// one, the message that holds the entry's draft in the entry's thread. Its
    /// error is the answer; its number is answered together with whether the
    /// lookup showed a closed thread.
    pub open spec fn answers_entry(
        &self,
        entry: Entry,
        r: Result<IngestOutcome, DomainError>,
    ) -> bool {
        exists|thread: Thread, written: Result<(), DomainError>|
            {
                &&& thread@ == session_thread(entry.thread_id@, thread.created_at)
                &&& #[trigger] call_ensures(T::upsert, (&self.thread_repo, &thread), written)
                &&& match written {
                    Err(e) => r == Err::<IngestOutcome, DomainError>(e),
                    Ok(_) => self.answers_written(entry, thread.created_at, r),
                }
            }
    }

    /// `r` is what storing `entry` answers once its thread is written: see
    /// `answers_entry`.
    pub open spec fn answers_written(
        &self,
        entry: Entry,
        at: Timestamp,
        r: Result<IngestOutcome, DomainError>,
    ) -> bool {
        exists|
            full: &str,
            found: Result<Option<Thread>, DomainError>,
            batch: &[Message],
            stored: Result<usize, DomainError>,
        |
            {
                &&& full@ == entry.thread_id@
                &&& #[trigger] call_ensures(T::find_by_id, (&self.thread_repo, full), found)
                &&& batch@.len() == 1
                &&& batch@[0]@ == drafted_message(
                    batch@[0].id@,
                    at,
                    entry.thread_id@,
                    opt_text(entry.session_id),
                    entry.draft@,
                )
                &&& #[trigger] call_ensures(R::insert_batch, (&self.repo, batch), stored)
                &&& r == ingest_answer(stored, shows_closed(found))
            }
    }

    /// `r` is what the event written in `text` leads to: the error of its plan;
    /// nothing stored and no store asked, where the plan holds no entry; what
    /// storing the plan's entry answers otherwise.
    pub open spec fn answers_event(
        &self,
        given: Option<Seq<char>>,
        text: Seq<char>,
        transcript: Option<Seq<char>>,
        r: Result<IngestOutcome, DomainError>,
    ) -> bool {
        exists|plan: Result<Option<Entry>, DomainError>| #[trigger]
            is_plan(plan, given, text, transcript) && match plan {
                Err(e) => r == Err::<IngestOutcome, DomainError>(e),
                Ok(None) => r == Ok::<IngestOutcome, DomainError>(
                    IngestOutcome { stored: 0, thread_closed: false },
                ),
                Ok(Some(entry)) => self.answers_entry(entry, r),
            }
    }

    /// Stores what the event `json_input` asks for.
    ///
    /// The event goes to the thread `thread_id_override`, or to the thread named
    /// after its session where none is given; that thread is created if it is
    /// missing. `transcript` is the text of the transcript that `transcript_path`
    /// names for the event, where the caller could read it.
    pub fn ingest(
        &self,
        thread_id_override: Option<&str>,
        json_input: &str,
        transcript: Option<&str>,
    ) -> (r: Result<IngestOutcome, DomainError>)
        ensures
            match json_tree(json_input@) {
                None => r matches Err(DomainError::Parse(why)) && starts_with(
                    why@,
                    "invalid JSON: "@,
                ),
                Some(event) => match thread_for(opt_str(thread_id_override), event) {
                    None => r matches Err(DomainError::Parse(why)) && why@
                        == "no session_id and no --thread provided"@,
                    Some(_) => match draft_of(event, reply_in(opt_str(transcript))) {
                        None => r == Ok::<IngestOutcome, DomainError>(
                            IngestOutcome { stored: 0, thread_closed: false },
                        ),
                        Some(_) => match r {
                            Ok(outcome) => outcome.stored == 1,
                            Err(e) => e is Database || e is InvalidInput,
                        },
                    },
                },
            },
            self.answers_event(opt_str(thread_id_override), json_input@, opt_str(transcript), r),
    {
        let plan = plan_entry(thread_id_override, json_input, transcript);
        let entry = match plan {
            Ok(Some(entry)) => entry,
            Ok(None) => {
                return Ok(IngestOutcome { stored: 0, thread_closed: false });
            },
            Err(e) => {
                return Err(e);
            },
        };
        let ghost kept = entry;
        let at = now();
        let thread = compose_session_thread(entry.thread_id.as_str(), at);
        let written = self.thread_repo.upsert(&thread);
        match written {
            Ok(done) => {
                assert(done == ());
            },
            Err(e) => {
                return Err(e);
            },
        }
        let full = entry.thread_id.as_str();
        let found = self.thread_repo.find_by_id(full);
        let thread_closed = found_closed(&found);
        let message = compose_drafted_message(
            new_id(),
            at,
            entry.thread_id,
            entry.session_id,
            entry.draft,
        );
        let mut batch: Vec<Message> = Vec::new();
        batch.push(message);
        let stored = self.repo.insert_batch(batch.as_slice());
        let r = match stored {
            Ok(n) => Ok(IngestOutcome { stored: n, thread_closed }),
            Err(e) => Err(e),
        };
        proof {
            assert(self.answers_written(kept, at, r));
            assert(self.answers_entry(kept, r));
        }
        r
    }
}

} // verus!
