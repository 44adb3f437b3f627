//! What each command does: which operations it runs, what it shows, and what it
//! notes on the side. Reading input and printing are the caller's; a handler takes
//! what was read and returns what is to be printed.

use vstd::prelude::*;
use crate::cli::args::{CleanupAction, HookAction, MessageAction, ThreadAction};
use crate::cli::content::{
    byte_size, content_verdict, validate_content, ContentError, ContentOrigin,
};
use crate::cli::formatter::{
    any_content_truncated, format_mention_notification, format_message_posted,
    format_messages_search, format_messages_text, format_threads_text, mention_note,
    some_content_exceeds, TRUNCATE_LEN,
};
use crate::domain::entity::{Message, Role, Thread, ThreadPhase, ThreadStatus};
use crate::domain::error::DomainError;
use crate::domain::ident::{short_id, shorten_id};
use crate::domain::instant::{naive_instant, parse_datetime_filter, Timestamp, ISO_FORMAT};
use crate::domain::ordering::is_ordered;
use crate::domain::json::{is_json, json_valid};
use crate::domain::repository::{all_mention, within, MessageRepository, ThreadRepository};
use crate::domain::select::{keep, Criterion};
use crate::domain::text::{
    decimal, decimal_digits, joined, lowercase_of, opt_str, opt_text, same_text, signed_decimal,
    signed_digits, starts_with,
};
use crate::usecase::cleanup::CleanupUseCase;
use crate::usecase::hook::{HookUseCase, IngestOutcome};
use crate::usecase::message::MessageUseCase;
use crate::infra::markdown::stored_rendering;
use crate::usecase::thread::{fetched_title, found_closed, shows_closed, ThreadUseCase};

verus! {

/// The number of messages that are read of all threads when no limit is given.
pub const DEFAULT_RECENT: usize = 20;

/// The note that tells how to see content in full.
pub const FULL_HINT: &'static str = "(全文を表示するには --full を付けてください)";

/// What a command shows on standard output.
#[derive(Debug, Clone, PartialEq, Eq)]
pub enum Rendering {
    /// This text, as it is.
    Text(String),
    /// These messages, as a JSON document.
    MessagesJson(Vec<Message>),
    /// These threads, as a JSON document.
    ThreadsJson(Vec<Thread>),
}

/// What a command that succeeded has to say.
#[derive(Debug, Clone, PartialEq, Eq)]
pub struct Output {
    /// What goes to standard output, if anything.
    pub shown: Option<Rendering>,
    /// The lines that go to standard error, in their order.
    pub notes: Vec<String>,
}

/// Why a command did not succeed.
#[derive(Debug, Clone, PartialEq, Eq)]
pub enum HandlerError {
    /// An operation of the engine failed.
    Domain(DomainError),
    /// Content was refused.
    Content(ContentError, ContentOrigin),
    /// An argument was refused; the text says why.
    Usage(String),
}

/// The exit code and the message for a failure: those of the engine's error where
/// it is one, the code 1 and the reason otherwise.
pub fn classify_error(e: &HandlerError) -> (r: (i32, String))
    ensures
        match e {
            HandlerError::Domain(d) => r.0 == (if d.is_input() {
                2i32
            } else {
                1i32
            }) && r.1@ == d.text(),
            HandlerError::Content(c, origin) => r.0 == 1 && r.1@ == c.text(*origin),
            HandlerError::Usage(why) => r.0 == 1 && r.1@ == why@,
        },
{
    match e {
        HandlerError::Domain(d) => (d.exit_code(), d.to_string()),
        HandlerError::Content(c, origin) => (1, c.message(*origin)),
        HandlerError::Usage(why) => (1, why.clone()),
    }
}

/// The messages created strictly after an instant.
pub open spec fn created_after(t: Timestamp) -> spec_fn(Message) -> bool {
    |m: Message| t.before(&m.created_at)
}

/// The messages created strictly before an instant.
pub open spec fn created_before(t: Timestamp) -> spec_fn(Message) -> bool {
    |m: Message| m.created_at.before(&t)
}

/// The condition "created strictly after this instant".
pub struct CreatedAfter {
    pub instant: Timestamp,
}

impl Criterion<Message> for CreatedAfter {
    open spec fn accepts(&self) -> spec_fn(Message) -> bool {
        created_after(self.instant)
    }

    fn test(&self, item: &Message) -> (r: bool) {
        item.created_at.is_after(&self.instant)
    }
}

/// The condition "created strictly before this instant".
pub struct CreatedBefore {
    pub instant: Timestamp,
}

impl Criterion<Message> for CreatedBefore {
    open spec fn accepts(&self) -> spec_fn(Message) -> bool {
        created_before(self.instant)
    }

    fn test(&self, item: &Message) -> (r: bool) {
        item.created_at.is_before(&self.instant)
    }
}

/// The messages of `v` created strictly after `after`, where one is given.
pub open spec fn since(v: Seq<Message>, after: Option<Timestamp>) -> Seq<Message> {
    match after {
        Some(t) => v.filter(created_after(t)),
        None => v,
    }
}

/// The messages of `v` created strictly before `before`, where one is given.
pub open spec fn until(v: Seq<Message>, before: Option<Timestamp>) -> Seq<Message> {
    match before {
        Some(t) => v.filter(created_before(t)),
        None => v,
    }
}

/// The first `limit` messages of `v`, where a limit is given and `v` has more.
pub open spec fn at_most(v: Seq<Message>, limit: Option<usize>) -> Seq<Message> {
    match limit {
        Some(n) => if n < v.len() {
            v.take(n as int)
        } else {
            v
        },
        None => v,
    }
}

/// The messages of `messages` created strictly after `after` and strictly before
/// `before`, as far as given, in their order, and of those at most `limit`.
pub fn select_window(
    messages: Vec<Message>,
    after: Option<Timestamp>,
    before: Option<Timestamp>,
    limit: Option<usize>,
) -> (r: Vec<Message>)
    ensures
        r@ == at_most(until(since(messages@, after), before), limit),
{
    let mut kept = match after {
        Some(t) => keep(messages, &CreatedAfter { instant: t }),
        None => messages,
    };
    kept = match before {
        Some(t) => keep(kept, &CreatedBefore { instant: t }),
        None => kept,
    };
    if let Some(n) = limit {
        if n < kept.len() {
            kept.truncate(n);
        }
    }
    kept
}

/// The status that a filter names: `open` or `closed`; anything else names all.
pub open spec fn status_named(filter: Seq<char>) -> Option<ThreadStatus> {
    if filter == "open"@ {
        Some(ThreadStatus::Open)
    } else if filter == "closed"@ {
        Some(ThreadStatus::Closed)
    } else {
        None
    }
}

/// The status that a filter names.
pub fn status_filter(filter: &str) -> (r: Option<ThreadStatus>)
    ensures
        r == status_named(filter@),
{
    if same_text(filter, "open") {
        Some(ThreadStatus::Open)
    } else if same_text(filter, "closed") {
        Some(ThreadStatus::Closed)
    } else {
        None
    }
}

/// The phase that an argument asks for: none for `none`, the phase that it names
/// otherwise.
pub open spec fn phase_named(arg: Seq<char>) -> Option<Option<ThreadPhase>> {
    if arg == "none"@ {
        Some(None)
    } else {
        match ThreadPhase::named(arg) {
            Some(p) => Some(Some(p)),
            None => None,
        }
    }
}

/// The phase that an argument asks for, or why it asks for none.
pub fn phase_choice(arg: &str) -> (r: Result<Option<ThreadPhase>, String>)
    ensures
        match r {
            Ok(p) => phase_named(arg@) == Some(p),
            Err(_) => phase_named(arg@) is None,
        },
{
    if same_text(arg, "none") {
        Ok(None)
    } else {
        match ThreadPhase::from_str(arg) {
            Ok(p) => Ok(Some(p)),
            Err(why) => Err(why),
        }
    }
}

/// Whether a format asks for JSON.
pub fn wants_json(format: &str) -> (r: bool)
    ensures
        r == (format@ == "json"@),
{
    same_text(format, "json")
}

/// An output that shows `text` and notes nothing.
pub fn text_output(text: String) -> (r: Output)
    ensures
        r.shown matches Some(Rendering::Text(t)) && t@ == text@,
        r.notes@.len() == 0,
{
    Output { shown: Some(Rendering::Text(text)), notes: Vec::new() }
}

/// An output that shows nothing and notes `note`.
pub fn note_output(note: String) -> (r: Output)
    ensures
        r.shown is None,
        r.notes@.len() == 1,
        r.notes@[0]@ == note@,
{
    let mut notes: Vec<String> = Vec::new();
    notes.push(note);
    Output { shown: None, notes }
}

/// `out` shows messages in the format asked for: as a JSON document for `json`, as
/// text otherwise.
pub open spec fn shows_messages(out: Output, format: Seq<char>) -> bool {
    if format == "json"@ {
        out.shown is Some && out.shown->0 is MessagesJson
    } else {
        out.shown is Some && out.shown->0 is Text
    }
}

/// `out` is how `messages` are shown in `format`: as a JSON document of exactly
/// these messages, without a note, for `json`; as text otherwise, with one note,
/// the hint at `--full`, where lines were cut short.
pub open spec fn is_display(
    out: Output,
    messages: Seq<Message>,
    format: Seq<char>,
    full: bool,
) -> bool {
    if format == "json"@ {
        &&& out.shown matches Some(Rendering::MessagesJson(shown)) && shown@ == messages
        &&& out.notes@.len() == 0
    } else {
        &&& out.shown is Some && out.shown->0 is Text
        &&& out.notes@.len() == (if !full && some_content_exceeds(messages, TRUNCATE_LEN as nat) {
            1nat
        } else {
            0nat
        })
    }
}

/// How a list of messages is shown: as JSON where the format asks for it, as lines
/// otherwise, with the hint at `--full` where lines were cut short.
pub fn show_messages(messages: Vec<Message>, format: &str, full: bool, query: Option<&str>) -> (r:
    Output)
    ensures
        format@ == "json"@ ==> r.shown == Some(Rendering::MessagesJson(messages)) && r.notes@.len()
            == 0,
        format@ != "json"@ ==> r.shown is Some && r.shown->0 is Text && r.notes@.len() == (if !full
            && some_content_exceeds(messages@, TRUNCATE_LEN as nat) {
            1nat
        } else {
            0nat
        }),
        is_display(r, messages@, format@, full),
{
    let mut notes: Vec<String> = Vec::new();
    if wants_json(format) {
        return Output { shown: Some(Rendering::MessagesJson(messages)), notes };
    }
    let text = match query {
        Some(q) => format_messages_search(messages.as_slice(), q, full),
        None => format_messages_text(messages.as_slice(), full),
    };
    if !full && any_content_truncated(messages.as_slice()) {
        notes.push(String::from_str(FULL_HINT));
    }
    Output { shown: Some(Rendering::Text(text)), notes }
}

/// `note` tells `name` of some number of messages, above zero, that mention them.
pub open spec fn tells_mentions(note: Seq<char>, name: Seq<char>) -> bool {
    exists|count: nat| count > 0 && note == #[trigger] mention_note(name, count)
}

/// `after` is `before` with what is due to `sender` on mentions: the same thing
/// shown, and the same notes, but that a sender whom some messages mention gets one
/// more note at the end, which tells the number of those messages. Without a sender
/// nothing is added.
pub open spec fn is_noted(before: Output, sender: Option<Seq<char>>, after: Output) -> bool {
    &&& after.shown == before.shown
    &&& sender is None ==> after.notes@ == before.notes@
    &&& sender is Some ==> {
        ||| after.notes@ == before.notes@
        ||| {
            &&& after.notes@.len() == before.notes@.len() + 1
            &&& after.notes@.drop_last() == before.notes@
            &&& tells_mentions(after.notes@.last()@, sender->0)
        }
    }
}

/// `after` is `before` with the note on `count` messages that mention `name`: the
/// same thing shown, and the same notes, with one more at the end, which tells
/// the number, where the number is above zero.
pub open spec fn is_noted_with(before: Output, name: Seq<char>, count: nat, after: Output) -> bool {
    &&& after.shown == before.shown
    &&& if count > 0 {
        &&& after.notes@.len() == before.notes@.len() + 1
        &&& after.notes@.drop_last() == before.notes@
        &&& after.notes@.last()@ == mention_note(name, count)
    } else {
        after.notes@ == before.notes@
    }
}

/// `r` is what adding the note on mentions to `before` answers. Without a sender
/// it is `before`, and no store is asked. With one, the store of messages is asked
/// how many messages of all threads mention the sender: its error is the answer,
/// or `before` with the note on its number.
pub open spec fn is_noting<M: MessageRepository>(
    message_uc: &MessageUseCase<M>,
    before: Output,
    sender: Option<Seq<char>>,
    r: Result<Output, HandlerError>,
) -> bool {
    match sender {
        None => r matches Ok(after) && after.shown == before.shown && after.notes@
            == before.notes@,
        Some(name) => exists|target: &str, answer: Result<usize, DomainError>|
            {
                &&& target@ == name
                &&& #[trigger] call_ensures(
                    M::count_mentions,
                    (&message_uc.repo, None::<&str>, target),
                    answer,
                )
                &&& match answer {
                    Err(e) => r == Err::<Output, HandlerError>(HandlerError::Domain(e)),
                    Ok(count) => r matches Ok(after) && is_noted_with(
                        before,
                        name,
                        count as nat,
                        after,
                    ),
                }
            },
    }
}

/// `r` is what showing `messages` and adding the note on mentions answers.
pub open spec fn is_shown_and_noted<M: MessageRepository>(
    message_uc: &MessageUseCase<M>,
    messages: Seq<Message>,
    format: Seq<char>,
    full: bool,
    sender: Option<Seq<char>>,
    r: Result<Output, HandlerError>,
) -> bool {
    exists|display: Output| #[trigger]
        is_display(display, messages, format, full) && is_noting(message_uc, display, sender, r)
}

/// Adds the note that tells `sender` how many messages mention them, if any do.
fn note_mentions<M: MessageRepository>(
    message_uc: &MessageUseCase<M>,
    sender: &Option<String>,
    output: Output,
) -> (r: Result<Output, HandlerError>)
    ensures
        r matches Ok(out) ==> is_noted(output, opt_text(*sender), out),
        r matches Err(e) ==> e is Domain,
        is_noting(message_uc, output, opt_text(*sender), r),
{
    let ghost given = output;
    let mut output = output;
    if let Some(name) = sender {
        let target = name.as_str();
        let answer = message_uc.count_mentions(None, target);
        let count = match answer {
            Ok(n) => n,
            Err(e) => { return Err(HandlerError::Domain(e)); },
        };
        proof {
            assert(call_ensures(
                M::count_mentions,
                (&message_uc.repo, None::<&str>, target),
                Ok::<usize, DomainError>(count),
            ));
        }
        if count > 0 {
            output.notes.push(format_mention_notification(name.as_str(), count));
            proof {
                assert(output.notes@.drop_last() =~= given.notes@);
                assert(output.notes@.last()@ == mention_note(name@, count as nat));
                assert(tells_mentions(output.notes@.last()@, name@));
            }
        }
        assert(is_noted_with(given, name@, count as nat, output));
    }
    Ok(output)
}

/// The words of the note that the thread named `thread` is closed.
pub open spec fn closed_note(thread: Seq<char>) -> Seq<char> {
    "警告: thread "@ + short_id(thread) + " はクローズされています"@
}

/// The note that a thread is closed.
fn closed_warning(thread: &str) -> (r: String)
    ensures
        r@ == closed_note(thread@),
{
    let short = shorten_id(thread);
    let head = joined("警告: thread ", short.as_str());
    joined(head.as_str(), " はクローズされています")
}

/// A reference to the text of an optional string.
fn as_opt_str(o: &Option<String>) -> (r: Option<&str>)
    ensures
        opt_str(r) == opt_text(*o),
{
    match o {
        Some(s) => Some(s.as_str()),
        None => None,
    }
}

/// What is to be posted: the content given, or else what was read from standard
/// input.
pub open spec fn posted_body(content: Option<Seq<char>>, input: Option<Seq<char>>) -> Option<
    Seq<char>,
> {
    match content {
        Some(c) => Some(c),
        None => input,
    }
}

/// The arguments of a post are in order: there is content, it keeps its bounds, the
/// role is one of the four, and the metadata, if any, is a JSON document.
pub open spec fn post_is_acceptable(
    role: Seq<char>,
    content: Option<Seq<char>>,
    input: Option<Seq<char>>,
    metadata: Option<Seq<char>>,
) -> bool {
    &&& posted_body(content, input) matches Some(body)
    &&& content_verdict(byte_size(body), body.contains('\0')) is Ok
    &&& Role::named(role) is Some
    &&& metadata matches Some(text) ==> json_valid(text)
}

/// Where the body of a post came from: the argument where content was given,
/// standard input otherwise.
pub open spec fn body_origin(content: Option<Seq<char>>) -> ContentOrigin {
    if content is Some {
        ContentOrigin::Argument
    } else {
        ContentOrigin::Input
    }
}

/// `e` is the refusal of a post whose arguments are not in order, which names the
/// first of these that applies: there is nothing to post; the body breaks its
/// bounds; the role is unknown; the metadata is no JSON document.
pub open spec fn is_post_refusal(
    e: HandlerError,
    role: Seq<char>,
    content: Option<Seq<char>>,
    input: Option<Seq<char>>,
    metadata: Option<Seq<char>>,
) -> bool {
    match posted_body(content, input) {
        None => e matches HandlerError::Usage(why) && why@ == "stdin からの読み取りに失敗しました"@,
        Some(body) => match content_verdict(byte_size(body), body.contains('\0')) {
            Err(c) => e == HandlerError::Content(c, body_origin(content)),
            Ok(()) => if Role::named(role) is None {
                e matches HandlerError::Usage(why) && why@ == "unknown role: "@ + lowercase_of(role)
            } else {
                &&& metadata matches Some(text) && !json_valid(text)
                &&& e matches HandlerError::Usage(why) && why@
                    == "--metadata は有効な JSON である必要があります"@
            },
        },
    }
}

/// The body and the role of a post whose arguments are in order, or the refusal
/// that names the first that is not.
pub fn check_post(
    role: &str,
    content: Option<String>,
    input: Option<String>,
    metadata: &Option<String>,
) -> (r: Result<(String, Role), HandlerError>)
    ensures
        match r {
            Ok((body, parsed)) => {
                &&& post_is_acceptable(
                    role@,
                    opt_text(content),
                    opt_text(input),
                    opt_text(*metadata),
                )
                &&& posted_body(opt_text(content), opt_text(input)) == Some(body@)
                &&& Role::named(role@) == Some(parsed)
            },
            Err(e) => {
                &&& !post_is_acceptable(
                    role@,
                    opt_text(content),
                    opt_text(input),
                    opt_text(*metadata),
                )
                &&& is_post_refusal(
                    e,
                    role@,
                    opt_text(content),
                    opt_text(input),
                    opt_text(*metadata),
                )
            },
        },
{
    let (body, origin) = match content {
        Some(c) => (c, ContentOrigin::Argument),
        None => match input {
            Some(i) => (i, ContentOrigin::Input),
            None => {
                return Err(
                    HandlerError::Usage(String::from_str("stdin からの読み取りに失敗しました")),
                );
            },
        },
    };
    match validate_content(body.as_str()) {
        Ok(()) => {},
        Err(e) => { return Err(HandlerError::Content(e, origin)); },
    }
    let parsed = match Role::from_str(role) {
        Ok(r) => r,
        Err(why) => { return Err(HandlerError::Usage(why)); },
    };
    if let Some(text) = metadata {
        if !is_json(text.as_str()) {
            return Err(
                HandlerError::Usage(
                    String::from_str("--metadata は有効な JSON である必要があります"),
                ),
            );
        }
    }
    Ok((body, parsed))
}

/// `r` is what posting with these arguments may answer: the identifier of the
/// message with at most one note, which only arguments in order lead to; an error
/// of the engine; or the refusal of arguments that are not in order.
pub open spec fn is_posting(
    r: Result<Output, HandlerError>,
    role: Seq<char>,
    content: Option<Seq<char>>,
    input: Option<Seq<char>>,
    metadata: Option<Seq<char>>,
) -> bool {
    match r {
        Ok(out) => {
            &&& post_is_acceptable(role, content, input, metadata)
            &&& out.shown matches Some(Rendering::Text(id))
            &&& out.notes@.len() <= 1
        },
        Err(HandlerError::Domain(_)) => true,
        Err(e) => !post_is_acceptable(role, content, input, metadata) && is_post_refusal(
            e,
            role,
            content,
            input,
            metadata,
        ),
    }
}

/// `notes` are the notes of a post to the thread named `thread`: the warning that
/// it is closed where it was found closed, none otherwise.
pub open spec fn are_post_notes(notes: Seq<String>, thread: Seq<char>, closed: bool) -> bool {
    if closed {
        notes.len() == 1 && notes[0]@ == closed_note(thread)
    } else {
        notes.len() == 0
    }
}

/// The notes of a post to the thread named `thread`, which was found closed or not.
pub fn post_notes(thread: &str, closed: bool) -> (notes: Vec<String>)
    ensures
        are_post_notes(notes@, thread@, closed),
{
    let mut notes: Vec<String> = Vec::new();
    if closed {
        notes.push(closed_warning(thread));
    }
    notes
}

/// `out` is what a post that went through shows and notes.
///
/// The store of threads resolved `thread` to an identifier and was then asked for
/// the thread of that identifier: the notes are those of a thread found closed or
/// not, by its answer. The store of messages was asked to write the message that
/// the post creates in the thread of that identifier, with the body and the role
/// of the post, and answered with success: what is shown is the identifier of that
/// message.
pub open spec fn is_posted<T: ThreadRepository, M: MessageRepository>(
    message_uc: &MessageUseCase<M>,
    thread_uc: &ThreadUseCase<T, M>,
    out: Output,
    thread: Seq<char>,
    role: Role,
    body: Seq<char>,
    session: Option<Seq<char>>,
    sender: Option<Seq<char>>,
    parent: Option<Seq<char>>,
    metadata: Option<Seq<char>>,
) -> bool {
    exists|name: &str, full: &str, found: Result<Option<Thread>, DomainError>, m: Message|
        {
            &&& name@ == thread
            &&& #[trigger] thread_uc.resolves(name, full)
            &&& #[trigger] call_ensures(T::find_by_id, (&thread_uc.thread_repo, full), found)
            &&& are_post_notes(out.notes@, thread, shows_closed(found))
            &&& #[trigger] message_uc.answers_post(
                full@,
                role,
                body,
                session,
                sender,
                metadata,
                parent,
                Some(m),
                Ok(()),
            )
            &&& out.shown matches Some(Rendering::Text(shown)) && shown@ == m.id@
        }
}

/// Posts a message to the thread that `thread` names and shows its identifier. A
/// closed thread takes the message; the caller is told that it is closed.
pub fn post_message<T: ThreadRepository, M: MessageRepository>(
    message_uc: &MessageUseCase<M>,
    thread_uc: &ThreadUseCase<T, M>,
    thread: String,
    role: String,
    content: Option<String>,
    session: Option<String>,
    sender: Option<String>,
    parent: Option<String>,
    metadata: Option<String>,
    input: Option<String>,
) -> (r: Result<Output, HandlerError>)
    ensures
        is_posting(r, role@, opt_text(content), opt_text(input), opt_text(metadata)),
        r matches Ok(out) ==> posted_body(opt_text(content), opt_text(input)) matches Some(body)
            && Role::named(role@) matches Some(parsed) && is_posted(
            message_uc,
            thread_uc,
            out,
            thread@,
            parsed,
            body,
            opt_text(session),
            opt_text(sender),
            opt_text(parent),
            opt_text(metadata),
        ),
{
    let name = thread.as_str();
    let resolved = thread_uc.resolve_id(name);
    let full_thread_id = match resolved {
        Ok(id) => id,
        Err(e) => { return Err(HandlerError::Domain(e)); },
    };
    let full = full_thread_id.as_str();
    assert(thread_uc.resolves(name, full));
    let found = thread_uc.find_by_id(full);
    let notes = post_notes(name, found_closed(&found));
    let (body, parsed) = match check_post(role.as_str(), content, input, &metadata) {
        Ok(checked) => checked,
        Err(e) => { return Err(e); },
    };
    let msg = match message_uc.post(
        full,
        parsed,
        body.as_str(),
        as_opt_str(&session),
        as_opt_str(&sender),
        metadata,
        as_opt_str(&parent),
    ) {
        Ok(m) => m,
        Err(e) => { return Err(HandlerError::Domain(e)); },
    };
    let out = Output { shown: Some(Rendering::Text(format_message_posted(&msg))), notes };
    proof {
        assert(message_uc.answers_post(
            full@,
            parsed,
            body@,
            opt_text(session),
            opt_text(sender),
            opt_text(metadata),
            opt_text(parent),
            Some(msg),
            Ok(()),
        ));
        assert(is_posted(
            message_uc,
            thread_uc,
            out,
            thread@,
            parsed,
            body@,
            opt_text(session),
            opt_text(sender),
            opt_text(parent),
            opt_text(metadata),
        ));
    }
    Ok(out)
}

/// The instant that a filter names, where one is given and names one.
pub open spec fn filter_instant(filter: Option<Seq<char>>) -> Option<Timestamp> {
    match filter {
        Some(text) => naive_instant(text, ISO_FORMAT@),
        None => None,
    }
}

/// The number of messages that are asked of all threads.
pub open spec fn recent_limit(limit: Option<usize>) -> nat {
    match limit {
        Some(n) => n as nat,
        None => DEFAULT_RECENT as nat,
    }
}

/// `found` is what the store may answer to a reading: of the thread that `thread`
/// names its messages, the oldest first; without a thread the newest messages of
/// all threads, the newest first, as many as were asked for at most.
pub open spec fn is_found_for_reading(
    found: Seq<Message>,
    thread: Option<Seq<char>>,
    limit: Option<usize>,
) -> bool {
    match thread {
        Some(name) => is_ordered(found, false) && exists|id: Seq<char>|
            starts_with(id, name) && #[trigger] within(found, Some(id)),
        None => is_ordered(found, true) && found.len() <= recent_limit(limit),
    }
}

/// What a reading shows of `found`: the messages created strictly after `after`
/// and strictly before `before`, as far as these name instants, in their order; of
/// a thread the first `limit` of them at most.
pub open spec fn read_window(
    found: Seq<Message>,
    of_thread: bool,
    limit: Option<usize>,
    before: Option<Seq<char>>,
    after: Option<Seq<char>>,
) -> Seq<Message> {
    at_most(
        until(since(found, filter_instant(after)), filter_instant(before)),
        if of_thread {
            limit
        } else {
            None
        },
    )
}

/// `out` shows exactly `messages` in the format asked for: as a JSON document of
/// these messages for `json`, as text otherwise.
pub open spec fn shows_exactly(out: Output, messages: Seq<Message>, format: Seq<char>) -> bool {
    if format == "json"@ {
        out.shown matches Some(Rendering::MessagesJson(shown)) && shown@ == messages
    } else {
        out.shown is Some && out.shown->0 is Text
    }
}

/// `r` is what a reading may answer: an error of the engine, or the window of
/// something that the store may answer to the reading, shown in the format asked
/// for.
pub open spec fn is_reading(
    r: Result<Output, HandlerError>,
    thread: Option<Seq<char>>,
    limit: Option<usize>,
    before: Option<Seq<char>>,
    after: Option<Seq<char>>,
    format: Seq<char>,
) -> bool {
    match r {
        Ok(out) => shows_messages(out, format) && exists|found: Seq<Message>| #[trigger]
            is_found_for_reading(found, thread, limit) && shows_exactly(
                out,
                read_window(found, thread is Some, limit, before, after),
                format,
            ),
        Err(e) => e is Domain,
    }
}

/// Shows the messages of the thread that `thread` names, oldest first, or the newest
/// of all threads where none is named: those created strictly after `after` and
/// before `before`, as far as these name instants, and of a thread at most `limit`.
pub fn read_messages<T: ThreadRepository, M: MessageRepository>(
    message_uc: &MessageUseCase<M>,
    thread_uc: &ThreadUseCase<T, M>,
    thread: Option<String>,
    limit: Option<usize>,
    before: Option<String>,
    after: Option<String>,
    full: bool,
    format: String,
    sender: Option<String>,
) -> (r: Result<Output, HandlerError>)
    ensures
        is_reading(r, opt_text(thread), limit, opt_text(before), opt_text(after), format@),
        answers_reading(
            message_uc,
            thread_uc,
            opt_text(thread),
            limit,
            opt_text(before),
            opt_text(after),
            full,
            format@,
            opt_text(sender),
            r,
        ),
{
    match &thread {
        Some(thread_id) => {
            let name = thread_id.as_str();
            let resolved = thread_uc.resolve_id(name);
            let whole_id = match resolved {
                Ok(id) => id,
                Err(e) => {
                    assert(thread_uc.fails_to_resolve(name, e));
                    assert(reads_thread(
                        message_uc,
                        thread_uc,
                        name,
                        limit,
                        opt_text(before),
                        opt_text(after),
                        full,
                        format@,
                        opt_text(sender),
                        Err(HandlerError::Domain(e)),
                    ));
                    return Err(HandlerError::Domain(e));
                },
            };
            let whole = whole_id.as_str();
            assert(thread_uc.resolves(name, whole));
            let answer = message_uc.read(whole);
            proof {
                assert(starts_with(whole@, name@));
                if answer is Ok {
                    assert(within(answer->Ok_0@, Some(whole@)));
                    assert(is_found_for_reading(answer->Ok_0@, opt_text(thread), limit));
                }
            }
            let r = show_window(
                message_uc,
                answer,
                true,
                limit,
                &before,
                &after,
                full,
                format.as_str(),
                &sender,
            );
            proof {
                assert(reads_thread(
                    message_uc,
                    thread_uc,
                    name,
                    limit,
                    opt_text(before),
                    opt_text(after),
                    full,
                    format@,
                    opt_text(sender),
                    r,
                ));
            }
            r
        },
        None => {
            let recent = match limit {
                Some(n) => n,
                None => DEFAULT_RECENT,
            };
            let answer = message_uc.list_recent(recent);
            proof {
                if answer is Ok {
                    assert(is_found_for_reading(answer->Ok_0@, opt_text(thread), limit));
                }
            }
            show_window(
                message_uc,
                answer,
                false,
                limit,
                &before,
                &after,
                full,
                format.as_str(),
                &sender,
            )
        },
    }
}

/// Shows the window of what the store of messages answered, with the note on
/// mentions, or hands on its error.
fn show_window<M: MessageRepository>(
    message_uc: &MessageUseCase<M>,
    answer: Result<Vec<Message>, DomainError>,
    of_thread: bool,
    limit: Option<usize>,
    before: &Option<String>,
    after: &Option<String>,
    full: bool,
    format: &str,
    sender: &Option<String>,
) -> (r: Result<Output, HandlerError>)
    ensures
        shows_window(
            message_uc,
            answer,
            of_thread,
            limit,
            opt_text(*before),
            opt_text(*after),
            full,
            format@,
            opt_text(*sender),
            r,
        ),
        r matches Err(e) ==> e is Domain,
        r is Ok ==> answer is Ok,
        r is Ok ==> shows_messages(r->Ok_0, format@) && shows_exactly(
            r->Ok_0,
            read_window(answer->Ok_0@, of_thread, limit, opt_text(*before), opt_text(*after)),
            format@,
        ),
{
    let messages = match answer {
        Ok(m) => m,
        Err(e) => { return Err(HandlerError::Domain(e)); },
    };
    let ghost found = messages@;
    let after_at = match after {
        Some(s) => parse_datetime_filter(s.as_str()),
        None => None,
    };
    let before_at = match before {
        Some(s) => parse_datetime_filter(s.as_str()),
        None => None,
    };
    let cap = if of_thread {
        limit
    } else {
        None
    };
    let shown = select_window(messages, after_at, before_at, cap);
    assert(shown@ == read_window(found, of_thread, limit, opt_text(*before), opt_text(*after)));
    let output = show_messages(shown, format, full, None);
    let r = note_mentions(message_uc, sender, output);
    proof {
        assert(is_display(output, shown@, format@, full));
        assert(is_shown_and_noted(message_uc, shown@, format@, full, opt_text(*sender), r));
    }
    r
}

/// The messages that `out` shows as a JSON document, if it shows one.
pub open spec fn shown_as_json(out: Output) -> Option<Seq<Message>> {
    match out.shown {
        Some(Rendering::MessagesJson(shown)) => Some(shown@),
        _ => None,
    }
}

/// `r` is what listing may answer: an error of the engine, or messages in the
/// format asked for, which as a JSON document are at most `limit`, the newest
/// first.
pub open spec fn is_listing(
    r: Result<Output, HandlerError>,
    limit: usize,
    format: Seq<char>,
) -> bool {
    match r {
        Ok(out) => shows_messages(out, format) && (shown_as_json(out) matches Some(found)
            ==> is_ordered(found, true) && found.len() <= limit),
        Err(e) => e is Domain,
    }
}

/// `r` is what searching may answer: an error of the engine, or messages in the
/// format asked for, which as a JSON document are the newest first and of one
/// thread that `thread` names, where it names one.
pub open spec fn is_searching(
    r: Result<Output, HandlerError>,
    thread: Option<Seq<char>>,
    format: Seq<char>,
) -> bool {
    match r {
        Ok(out) => shows_messages(out, format) && (shown_as_json(out) matches Some(found) ==> {
            &&& is_ordered(found, true)
            &&& thread matches Some(name) ==> exists|id: Seq<char>|
                starts_with(id, name) && #[trigger] within(found, Some(id))
        }),
        Err(e) => e is Domain,
    }
}

/// `r` is what asking for the mentions of `sender` may answer: an error of the
/// engine, or messages in the format asked for, which as a JSON document are the
/// newest first and mention `sender`, every one.
pub open spec fn is_mentioning(
    r: Result<Output, HandlerError>,
    sender: Seq<char>,
    format: Seq<char>,
) -> bool {
    match r {
        Ok(out) => shows_messages(out, format) && (shown_as_json(out) matches Some(found)
            ==> is_ordered(found, true) && all_mention(found, sender)),
        Err(e) => e is Domain,
    }
}

/// `r` is what showing the answer `answer` of the store of messages gives: its
/// error, or its messages shown, with the note on mentions.
pub open spec fn shows_answer<M: MessageRepository>(
    message_uc: &MessageUseCase<M>,
    answer: Result<Vec<Message>, DomainError>,
    format: Seq<char>,
    full: bool,
    sender: Option<Seq<char>>,
    r: Result<Output, HandlerError>,
) -> bool {
    match answer {
        Err(e) => r == Err::<Output, HandlerError>(HandlerError::Domain(e)),
        Ok(found) => is_shown_and_noted(message_uc, found@, format, full, sender, r),
    }
}

/// `r` is what listing answers: what showing the answer of the store of messages
/// gives, which was asked for the `limit` newest messages.
pub open spec fn answers_listing<M: MessageRepository>(
    message_uc: &MessageUseCase<M>,
    limit: usize,
    full: bool,
    format: Seq<char>,
    sender: Option<Seq<char>>,
    r: Result<Output, HandlerError>,
) -> bool {
    exists|answer: Result<Vec<Message>, DomainError>| #[trigger]
        call_ensures(M::list_recent, (&message_uc.repo, limit), answer) && shows_answer(
            message_uc,
            answer,
            format,
            full,
            sender,
            r,
        )
}

/// `r` is what searching for `query` answers. Where a thread is named, the store
/// of threads is asked first which thread it is, and its error is the answer. The
/// store of messages is then asked for the messages that match `query`, in that
/// thread where one was named, and `r` is what showing its answer gives.
pub open spec fn answers_searching<T: ThreadRepository, M: MessageRepository>(
    message_uc: &MessageUseCase<M>,
    thread_uc: &ThreadUseCase<T, M>,
    query: Seq<char>,
    thread: Option<Seq<char>>,
    full: bool,
    format: Seq<char>,
    sender: Option<Seq<char>>,
    r: Result<Output, HandlerError>,
) -> bool {
    match thread {
        None => exists|text: &str, answer: Result<Vec<Message>, DomainError>|
            {
                &&& text@ == query
                &&& #[trigger] call_ensures(
                    M::search,
                    (&message_uc.repo, text, None::<&str>),
                    answer,
                )
                &&& shows_answer(message_uc, answer, format, full, sender, r)
            },
        Some(named) => exists|name: &str|
            name@ == named && #[trigger] searches_thread(
                message_uc,
                thread_uc,
                query,
                name,
                full,
                format,
                sender,
                r,
            ),
    }
}

/// `r` is what searching the thread that `name` names answers: see
/// `answers_searching`.
pub open spec fn searches_thread<T: ThreadRepository, M: MessageRepository>(
    message_uc: &MessageUseCase<M>,
    thread_uc: &ThreadUseCase<T, M>,
    query: Seq<char>,
    name: &str,
    full: bool,
    format: Seq<char>,
    sender: Option<Seq<char>>,
    r: Result<Output, HandlerError>,
) -> bool {
    ||| (r matches Err(HandlerError::Domain(e)) && thread_uc.fails_to_resolve(name, e))
    ||| exists|whole: &str, text: &str, answer: Result<Vec<Message>, DomainError>|
        {
            &&& text@ == query
            &&& #[trigger] thread_uc.resolves(name, whole)
            &&& #[trigger] call_ensures(M::search, (&message_uc.repo, text, Some(whole)), answer)
            &&& shows_answer(message_uc, answer, format, full, sender, r)
        }
}

/// `r` is what asking for the mentions of `sender` answers: the error of the store
/// of messages, which was asked for the messages of all threads that mention
/// `sender`, or its messages shown.
pub open spec fn answers_mentioning<M: MessageRepository>(
    message_uc: &MessageUseCase<M>,
    sender: Seq<char>,
    full: bool,
    format: Seq<char>,
    r: Result<Output, HandlerError>,
) -> bool {
    exists|target: &str, answer: Result<Vec<Message>, DomainError>|
        {
            &&& target@ == sender
            &&& #[trigger] call_ensures(
                M::find_mentions,
                (&message_uc.repo, None::<&str>, target),
                answer,
            )
            &&& match answer {
                Err(e) => r == Err::<Output, HandlerError>(HandlerError::Domain(e)),
                Ok(found) => r matches Ok(out) && is_display(out, found@, format, full),
            }
        }
}

/// `r` is what reading answers. Of a thread that is named, the store of threads is
/// asked first which thread it is, and its error is the answer; the store of
/// messages is then asked for the messages of that thread. Without a thread it is
/// asked for the newest messages of all threads, as many as the limit or the
/// default says. Its error is the answer; of its messages the window is shown, with
/// the note on mentions.
pub open spec fn answers_reading<T: ThreadRepository, M: MessageRepository>(
    message_uc: &MessageUseCase<M>,
    thread_uc: &ThreadUseCase<T, M>,
    thread: Option<Seq<char>>,
    limit: Option<usize>,
    before: Option<Seq<char>>,
    after: Option<Seq<char>>,
    full: bool,
    format: Seq<char>,
    sender: Option<Seq<char>>,
    r: Result<Output, HandlerError>,
) -> bool {
    match thread {
        None => exists|answer: Result<Vec<Message>, DomainError>| #[trigger]
            call_ensures(
                M::list_recent,
                (&message_uc.repo, recent_limit(limit) as usize),
                answer,
            ) && shows_window(message_uc, answer, false, limit, before, after, full, format, sender, r),
        Some(named) => exists|name: &str|
            name@ == named && #[trigger] reads_thread(
                message_uc,
                thread_uc,
                name,
                limit,
                before,
                after,
                full,
                format,
                sender,
                r,
            ),
    }
}

/// `r` is what reading the thread that `name` names answers: see
/// `answers_reading`.
pub open spec fn reads_thread<T: ThreadRepository, M: MessageRepository>(
    message_uc: &MessageUseCase<M>,
    thread_uc: &ThreadUseCase<T, M>,
    name: &str,
    limit: Option<usize>,
    before: Option<Seq<char>>,
    after: Option<Seq<char>>,
    full: bool,
    format: Seq<char>,
    sender: Option<Seq<char>>,
    r: Result<Output, HandlerError>,
) -> bool {
    ||| (r matches Err(HandlerError::Domain(e)) && thread_uc.fails_to_resolve(name, e))
    ||| exists|whole: &str, answer: Result<Vec<Message>, DomainError>|
        {
            &&& #[trigger] thread_uc.resolves(name, whole)
            &&& #[trigger] call_ensures(M::find_by_thread, (&message_uc.repo, whole), answer)
            &&& shows_window(message_uc, answer, true, limit, before, after, full, format, sender, r)
        }
}

/// `r` is what showing the window of the answer `answer` of the store of messages
/// gives: its error, or the window of its messages shown, with the note on
/// mentions.
pub open spec fn shows_window<M: MessageRepository>(
    message_uc: &MessageUseCase<M>,
    answer: Result<Vec<Message>, DomainError>,
    of_thread: bool,
    limit: Option<usize>,
    before: Option<Seq<char>>,
    after: Option<Seq<char>>,
    full: bool,
    format: Seq<char>,
    sender: Option<Seq<char>>,
    r: Result<Output, HandlerError>,
) -> bool {
    match answer {
        Err(e) => r == Err::<Output, HandlerError>(HandlerError::Domain(e)),
        Ok(found) => is_shown_and_noted(
            message_uc,
            read_window(found@, of_thread, limit, before, after),
            format,
            full,
            sender,
            r,
        ),
    }
}

/// Shows what the store of messages answered, with the note on mentions, or hands
/// on its error.
fn show_found<M: MessageRepository>(
    message_uc: &MessageUseCase<M>,
    answer: Result<Vec<Message>, DomainError>,
    format: &str,
    full: bool,
    query: Option<&str>,
    sender: &Option<String>,
) -> (r: Result<Output, HandlerError>)
    ensures
        shows_answer(message_uc, answer, format@, full, opt_text(*sender), r),
        r matches Err(e) ==> e is Domain,
        r is Ok ==> shows_messages(r->Ok_0, format@) && shows_exactly(
            r->Ok_0,
            answer->Ok_0@,
            format@,
        ),
        r is Ok ==> answer is Ok,
{
    let messages = match answer {
        Ok(m) => m,
        Err(e) => { return Err(HandlerError::Domain(e)); },
    };
    let output = show_messages(messages, format, full, query);
    let r = note_mentions(message_uc, sender, output);
    proof {
        assert(is_display(output, messages@, format@, full));
        assert(is_shown_and_noted(message_uc, messages@, format@, full, opt_text(*sender), r));
    }
    r
}

/// Shows at most `limit` messages of all threads, the newest first.
pub fn list_messages<M: MessageRepository>(
    message_uc: &MessageUseCase<M>,
    limit: usize,
    full: bool,
    format: String,
    sender: Option<String>,
) -> (r: Result<Output, HandlerError>)
    ensures
        is_listing(r, limit, format@),
        answers_listing(message_uc, limit, full, format@, opt_text(sender), r),
{
    let answer = message_uc.list_recent(limit);
    let messages = match answer {
        Ok(m) => m,
        Err(e) => {
            assert(shows_answer(
                message_uc,
                answer,
                format@,
                full,
                opt_text(sender),
                Err(HandlerError::Domain(e)),
            ));
            return Err(HandlerError::Domain(e));
        },
    };
    let output = show_messages(messages, format.as_str(), full, None);
    let r = note_mentions(message_uc, &sender, output);
    proof {
        assert(is_display(output, messages@, format@, full));
        assert(is_shown_and_noted(message_uc, messages@, format@, full, opt_text(sender), r));
        assert(shows_answer(message_uc, answer, format@, full, opt_text(sender), r));
    }
    r
}

/// Shows the messages that match `query`, of the thread that `thread` names where
/// one is named, the newest first.
pub fn search_messages<T: ThreadRepository, M: MessageRepository>(
    message_uc: &MessageUseCase<M>,
    thread_uc: &ThreadUseCase<T, M>,
    query: String,
    thread: Option<String>,
    full: bool,
    format: String,
    sender: Option<String>,
) -> (r: Result<Output, HandlerError>)
    ensures
        is_searching(r, opt_text(thread), format@),
        answers_searching(
            message_uc,
            thread_uc,
            query@,
            opt_text(thread),
            full,
            format@,
            opt_text(sender),
            r,
        ),
{
    let text = query.as_str();
    match &thread {
        Some(t) => {
            let name = t.as_str();
            let resolved = thread_uc.resolve_id(name);
            let whole_id = match resolved {
                Ok(id) => id,
                Err(e) => {
                    assert(thread_uc.fails_to_resolve(name, e));
                    assert(searches_thread(
                        message_uc,
                        thread_uc,
                        query@,
                        name,
                        full,
                        format@,
                        opt_text(sender),
                        Err(HandlerError::Domain(e)),
                    ));
                    return Err(HandlerError::Domain(e));
                },
            };
            let whole = whole_id.as_str();
            assert(thread_uc.resolves(name, whole));
            let answer = message_uc.search(text, Some(whole));
            let ghost answered = answer;
            let r = show_found(message_uc, answer, format.as_str(), full, Some(text), &sender);
            proof {
                assert(starts_with(whole@, name@));
                if r is Ok {
                    assert(within(answered->Ok_0@, Some(whole@)));
                    assert(shown_as_json(r->Ok_0) matches Some(found) ==> found == answered->Ok_0@);
                }
                assert(searches_thread(
                    message_uc,
                    thread_uc,
                    query@,
                    name,
                    full,
                    format@,
                    opt_text(sender),
                    r,
                ));
            }
            r
        },
        None => {
            let answer = message_uc.search(text, None);
            let ghost answered = answer;
            let r = show_found(message_uc, answer, format.as_str(), full, Some(text), &sender);
            proof {
                if r is Ok {
                    assert(shown_as_json(r->Ok_0) matches Some(found) ==> found == answered->Ok_0@);
                }
            }
            r
        },
    }
}

/// Shows the messages that mention `sender`, the newest first.
pub fn show_mentions<M: MessageRepository>(
    message_uc: &MessageUseCase<M>,
    sender: String,
    full: bool,
    format: String,
) -> (r: Result<Output, HandlerError>)
    ensures
        is_mentioning(r, sender@, format@),
        answers_mentioning(message_uc, sender@, full, format@, r),
{
    let target = sender.as_str();
    let answer = message_uc.find_mentions(None, target);
    let messages = match answer {
        Ok(m) => m,
        Err(e) => { return Err(HandlerError::Domain(e)); },
    };
    let out = show_messages(messages, format.as_str(), full, None);
    assert(is_display(out, messages@, format@, full));
    Ok(out)
}

/// `r` is what replacing the content of the message that `id` names answers.
///
/// Content that does not keep its bounds is refused with the bound that it breaks,
/// as content given as an argument, and nothing is looked up. For content that
/// keeps its bounds the answer is that of the operation on messages: its error, or
/// the whole identifier, shown without a note.
pub open spec fn is_updating<M: MessageRepository>(
    message_uc: &MessageUseCase<M>,
    r: Result<Output, HandlerError>,
    id: Seq<char>,
    content: Seq<char>,
) -> bool {
    match content_verdict(byte_size(content), content.contains('\0')) {
        Err(broken) => r == Err::<Output, HandlerError>(
            HandlerError::Content(broken, ContentOrigin::Argument),
        ),
        Ok(()) => exists|name: &str, text: &str, answer: Result<String, DomainError>|
            {
                &&& name@ == id
                &&& text@ == content
                &&& #[trigger] message_uc.answers_update(name, text, answer)
                &&& match answer {
                    Ok(full_id) => {
                        &&& r matches Ok(out)
                        &&& out.shown matches Some(Rendering::Text(shown))
                        &&& shown@ == full_id@
                        &&& starts_with(full_id@, id)
                        &&& out.notes@.len() == 0
                    },
                    Err(e) => r == Err::<Output, HandlerError>(HandlerError::Domain(e)),
                }
            },
    }
}

/// Replaces the content of the message that `id` names and shows its whole
/// identifier. Content that does not keep its bounds is refused before anything is
/// looked up.
pub fn update_message<M: MessageRepository>(
    message_uc: &MessageUseCase<M>,
    id: String,
    content: String,
) -> (r: Result<Output, HandlerError>)
    ensures
        is_updating(message_uc, r, id@, content@),
{
    match validate_content(content.as_str()) {
        Ok(()) => {},
        Err(e) => { return Err(HandlerError::Content(e, ContentOrigin::Argument)); },
    }
    let name = id.as_str();
    let text = content.as_str();
    let answer = message_uc.update(name, text);
    let ghost answered = answer;
    let r = match answer {
        Ok(full_id) => Ok(text_output(full_id)),
        Err(e) => Err(HandlerError::Domain(e)),
    };
    proof {
        assert(message_uc.answers_update(name, text, answered));
    }
    r
}

/// Runs a command on messages. `input` is what was read from standard input, for
/// an action that takes its content from there.
pub fn handle_message<T: ThreadRepository, M: MessageRepository>(
    action: MessageAction,
    message_uc: &MessageUseCase<M>,
    thread_uc: &ThreadUseCase<T, M>,
    input: Option<String>,
) -> (r: Result<Output, HandlerError>)
    ensures
        match action {
            MessageAction::Post { thread, role, content, session, sender, parent, metadata } => {
                &&& is_posting(r, role@, opt_text(content), opt_text(input), opt_text(metadata))
                &&& r matches Ok(out) ==> posted_body(opt_text(content), opt_text(input)) matches Some(
                    body,
                ) && Role::named(role@) matches Some(parsed) && is_posted(
                    message_uc,
                    thread_uc,
                    out,
                    thread@,
                    parsed,
                    body,
                    opt_text(session),
                    opt_text(sender),
                    opt_text(parent),
                    opt_text(metadata),
                )
            },
            MessageAction::Update { id, content } => is_updating(message_uc, r, id@, content@),
            MessageAction::Read { thread, limit, before, after, full, format, sender } => {
                &&& is_reading(
                    r,
                    opt_text(thread),
                    limit,
                    opt_text(before),
                    opt_text(after),
                    format@,
                )
                &&& answers_reading(
                    message_uc,
                    thread_uc,
                    opt_text(thread),
                    limit,
                    opt_text(before),
                    opt_text(after),
                    full,
                    format@,
                    opt_text(sender),
                    r,
                )
            },
            MessageAction::List { limit, full, format, sender } => {
                &&& is_listing(r, limit, format@)
                &&& answers_listing(message_uc, limit, full, format@, opt_text(sender), r)
            },
            MessageAction::Search { query, thread, full, format, sender } => {
                &&& is_searching(r, opt_text(thread), format@)
                &&& answers_searching(
                    message_uc,
                    thread_uc,
                    query@,
                    opt_text(thread),
                    full,
                    format@,
                    opt_text(sender),
                    r,
                )
            },
            MessageAction::Mentions { sender, full, format } => {
                &&& is_mentioning(r, sender@, format@)
                &&& answers_mentioning(message_uc, sender@, full, format@, r)
            },
        },
{
    match action {
        MessageAction::Post { thread, role, content, session, sender, parent, metadata } => {
            post_message(
                message_uc,
                thread_uc,
                thread,
                role,
                content,
                session,
                sender,
                parent,
                metadata,
                input,
            )
        },
        MessageAction::Read { thread, limit, before, after, full, format, sender } => {
            read_messages(message_uc, thread_uc, thread, limit, before, after, full, format, sender)
        },
        MessageAction::List { limit, full, format, sender } => {
            list_messages(message_uc, limit, full, format, sender)
        },
        MessageAction::Search { query, thread, full, format, sender } => {
            search_messages(message_uc, thread_uc, query, thread, full, format, sender)
        },
        MessageAction::Mentions { sender, full, format } => {
            show_mentions(message_uc, sender, full, format)
        },
        MessageAction::Update { id, content } => update_message(message_uc, id, content),
    }
}

/// The note that something was done to the thread `id`.
fn thread_note(id: &str, what: &str) -> (r: String)
    ensures
        r@ == "thread "@ + id@ + what@,
{
    let head = joined("thread ", id);
    joined(head.as_str(), what)
}

/// `out` is one note and nothing else.
pub open spec fn is_note(out: Output, note: Seq<char>) -> bool {
    out.shown is None && out.notes@.len() == 1 && out.notes@[0]@ == note
}

/// What a command on threads owes when it succeeds.
pub open spec fn thread_outcome(action: ThreadAction, out: Output) -> bool {
    match action {
        ThreadAction::Create { .. } => out.shown is Some && out.shown->0 is Text
            && out.notes@.len() == 0,
        ThreadAction::List { format, .. } => out.notes@.len() == 0 && out.shown is Some && (
        if format@ == "json"@ {
            out.shown->0 is ThreadsJson
        } else {
            out.shown->0 is Text
        }),
        ThreadAction::Delete { id } => is_note(out, "thread "@ + id@ + " を削除しました"@),
        ThreadAction::Close { id } => is_note(out, "thread "@ + id@ + " をクローズしました"@),
        ThreadAction::Reopen { id } => is_note(out, "thread "@ + id@ + " を再オープンしました"@),
        ThreadAction::SetPhase { id, phase } => match phase_named(phase@) {
            Some(Some(p)) => is_note(
                out,
                "thread "@ + id@ + " のフェーズを "@ + p.text() + " に設定しました"@,
            ),
            Some(None) => is_note(out, "thread "@ + id@ + " のフェーズを解除しました"@),
            None => false,
        },
        ThreadAction::Fetch { .. } => out.shown is Some && out.shown->0 is Text
            && out.notes@.len() == 1,
    }
}

/// What a change answered, read off what the command answers: success where the
/// command succeeded, the error of the engine where it failed with one.
pub open spec fn change_answer(r: Result<Output, HandlerError>) -> Option<Result<(), DomainError>> {
    match r {
        Ok(_) => Some(Ok(())),
        Err(HandlerError::Domain(e)) => Some(Err(e)),
        Err(_) => None,
    }
}

/// `r` is what the command `action` on threads answers, in the answers of the
/// operations on threads.
///
/// Creating and fetching show the identifier of the thread that was written.
/// Listing shows, as a JSON document, exactly the threads that the store answered
/// for the status that the filter names. Deleting, closing, reopening and setting
/// a phase succeed or fail as the operation on the thread named did. A phase that
/// names none, and a fetch without a document, are refused before any store is
/// asked.
pub open spec fn is_thread_answer<T: ThreadRepository, M: MessageRepository>(
    thread_uc: &ThreadUseCase<T, M>,
    action: ThreadAction,
    fetched: Option<Seq<char>>,
    r: Result<Output, HandlerError>,
) -> bool {
    match action {
        ThreadAction::Create { title } => is_creating(thread_uc, title@, r),
        ThreadAction::List { format, status, .. } => is_listing_threads(
            thread_uc,
            format@,
            status@,
            r,
        ),
        ThreadAction::Delete { id } => change_answer(r) is Some && exists|name: &str|
            name@ == id@ && #[trigger] thread_uc.answers_delete(name, change_answer(r)->0),
        ThreadAction::Close { id } => change_answer(r) is Some && exists|name: &str|
            name@ == id@ && #[trigger] thread_uc.answers_status(
                name,
                ThreadStatus::Closed,
                change_answer(r)->0,
            ),
        ThreadAction::Reopen { id } => change_answer(r) is Some && exists|name: &str|
            name@ == id@ && #[trigger] thread_uc.answers_status(
                name,
                ThreadStatus::Open,
                change_answer(r)->0,
            ),
        ThreadAction::SetPhase { id, phase } => match phase_named(phase@) {
            None => r matches Err(HandlerError::Usage(_)),
            Some(choice) => change_answer(r) is Some && exists|name: &str|
                name@ == id@ && #[trigger] thread_uc.answers_phase(
                    name,
                    choice,
                    change_answer(r)->0,
                ),
        },
        ThreadAction::Fetch { url, title, sender } => match fetched {
            None => r matches Err(HandlerError::Usage(_)),
            Some(html) => is_fetching(
                thread_uc,
                fetched_title(url@, opt_text(title)),
                url@,
                opt_text(sender),
                stored_rendering(html),
                r,
            ),
        },
    }
}

/// `r` is what creating a thread titled `title` answers: the error of the
/// operation, or the identifier of the thread that was written.
pub open spec fn is_creating<T: ThreadRepository, M: MessageRepository>(
    thread_uc: &ThreadUseCase<T, M>,
    title: Seq<char>,
    r: Result<Output, HandlerError>,
) -> bool {
    match r {
        Ok(out) => exists|t: Thread| #[trigger]
            thread_uc.answers_create(title, None, Some(t), Ok(())) && shows_text(out, t.id@),
        Err(HandlerError::Domain(e)) => thread_uc.answers_create(title, None, None, Err(e)),
        Err(_) => false,
    }
}

/// `r` is what listing the threads of the status that `status` names answers: the
/// error of the store, or the threads that it answered, which a JSON document
/// shows exactly.
pub open spec fn is_listing_threads<T: ThreadRepository, M: MessageRepository>(
    thread_uc: &ThreadUseCase<T, M>,
    format: Seq<char>,
    status: Seq<char>,
    r: Result<Output, HandlerError>,
) -> bool {
    exists|answer: Result<Vec<Thread>, DomainError>| #[trigger]
        call_ensures(T::list_by_status, (&thread_uc.thread_repo, status_named(status)), answer)
            && match answer {
            Ok(found) => r matches Ok(out) && (format == "json"@ ==> out.shown == Some(
                Rendering::ThreadsJson(found),
            )),
            Err(e) => r == Err::<Output, HandlerError>(HandlerError::Domain(e)),
        }
}

/// `r` is what storing a fetched document answers: the error of the operation, or
/// the identifier of the thread that was written.
pub open spec fn is_fetching<T: ThreadRepository, M: MessageRepository>(
    thread_uc: &ThreadUseCase<T, M>,
    title: Seq<char>,
    url: Seq<char>,
    sender: Option<Seq<char>>,
    content: Seq<char>,
    r: Result<Output, HandlerError>,
) -> bool {
    match r {
        Ok(out) => exists|t: Thread| #[trigger]
            thread_uc.answers_fetch(title, url, sender, content, Ok(t)) && shows_text(out, t.id@),
        Err(HandlerError::Domain(e)) => thread_uc.answers_fetch(
            title,
            url,
            sender,
            content,
            Err(e),
        ),
        Err(_) => false,
    }
}

/// `out` shows the text `text`.
pub open spec fn shows_text(out: Output, text: Seq<char>) -> bool {
    out.shown matches Some(Rendering::Text(shown)) && shown@ == text
}

/// Runs a command on threads. `fetched` is the document that was fetched for a
/// fetch.
pub fn handle_thread<T: ThreadRepository, M: MessageRepository>(
    action: ThreadAction,
    thread_uc: &ThreadUseCase<T, M>,
    fetched: Option<String>,
) -> (r: Result<Output, HandlerError>)
    ensures
        match r {
            Ok(out) => thread_outcome(action, out) && (action is Fetch ==> fetched is Some),
            Err(HandlerError::Domain(_)) => true,
            Err(HandlerError::Usage(_)) => (action matches ThreadAction::SetPhase { phase, .. }
                && phase_named(phase@) is None) || (action is Fetch && fetched is None),
            Err(HandlerError::Content(_, _)) => false,
        },
        is_thread_answer(thread_uc, action, opt_text(fetched), r),
{
    match action {
        ThreadAction::Create { title } => {
            let answer = thread_uc.create(title.as_str());
            match answer {
                Ok(thread) => {
                    let out = text_output(thread.id);
                    assert(shows_text(out, thread.id@));
                    assert(is_creating(thread_uc, title@, Ok(out)));
                    Ok(out)
                },
                Err(e) => {
                    assert(is_creating(thread_uc, title@, Err(HandlerError::Domain(e))));
                    Err(HandlerError::Domain(e))
                },
            }
        },
        ThreadAction::List { full, format, status } => {
            let wanted = status_filter(status.as_str());
            let answer = thread_uc.list_by_status(wanted);
            let threads = match answer {
                Ok(t) => t,
                Err(e) => {
                    assert(is_listing_threads(
                        thread_uc,
                        format@,
                        status@,
                        Err(HandlerError::Domain(e)),
                    ));
                    return Err(HandlerError::Domain(e));
                },
            };
            let shown = if wants_json(format.as_str()) {
                Rendering::ThreadsJson(threads)
            } else {
                Rendering::Text(format_threads_text(threads.as_slice(), full))
            };
            let out = Output { shown: Some(shown), notes: Vec::new() };
            assert(is_listing_threads(thread_uc, format@, status@, Ok(out)));
            Ok(out)
        },
        ThreadAction::Delete { id } => {
            let name = id.as_str();
            let answer = thread_uc.delete(name);
            assert(thread_uc.answers_delete(name, answer));
            let r = match answer {
                Ok(done) => {
                    assert(done == ());
                    Ok(note_output(thread_note(name, " を削除しました")))
                },
                Err(e) => Err(HandlerError::Domain(e)),
            };
            assert(change_answer(r) == Some(answer));
            assert(thread_uc.answers_delete(name, change_answer(r)->0));
            r
        },
        ThreadAction::Close { id } => {
            let name = id.as_str();
            let answer = thread_uc.close(name);
            assert(thread_uc.answers_status(name, ThreadStatus::Closed, answer));
            let r = match answer {
                Ok(done) => {
                    assert(done == ());
                    Ok(note_output(thread_note(name, " をクローズしました")))
                },
                Err(e) => Err(HandlerError::Domain(e)),
            };
            assert(change_answer(r) == Some(answer));
            assert(thread_uc.answers_status(name, ThreadStatus::Closed, change_answer(r)->0));
            r
        },
        ThreadAction::Reopen { id } => {
            let name = id.as_str();
            let answer = thread_uc.reopen(name);
            assert(thread_uc.answers_status(name, ThreadStatus::Open, answer));
            let r = match answer {
                Ok(done) => {
                    assert(done == ());
                    Ok(note_output(thread_note(name, " を再オープンしました")))
                },
                Err(e) => Err(HandlerError::Domain(e)),
            };
            assert(change_answer(r) == Some(answer));
            assert(thread_uc.answers_status(name, ThreadStatus::Open, change_answer(r)->0));
            r
        },
        ThreadAction::SetPhase { id, phase } => {
            let choice = match phase_choice(phase.as_str()) {
                Ok(c) => c,
                Err(why) => { return Err(HandlerError::Usage(why)); },
            };
            let name = id.as_str();
            let answer = thread_uc.set_phase(name, choice);
            assert(thread_uc.answers_phase(name, choice, answer));
            assert(phase_named(phase@) == Some(choice));
            match answer {
                Ok(done) => {
                    assert(done == ());
                },
                Err(e) => {
                    let r = Err(HandlerError::Domain(e));
                    proof {
                        assert(change_answer(r) == Some(answer));
                        assert(thread_uc.answers_phase(name, choice, change_answer(r)->0));
                    }
                    return r;
                },
            }
            let note = match choice {
                Some(p) => {
                    let head = thread_note(name, " のフェーズを ");
                    let named = joined(head.as_str(), p.as_str());
                    joined(named.as_str(), " に設定しました")
                },
                None => thread_note(name, " のフェーズを解除しました"),
            };
            let out = note_output(note);
            proof {
                let r = Ok::<Output, HandlerError>(out);
                assert(change_answer(r) == Some(answer));
                assert(thread_uc.answers_phase(name, choice, change_answer(r)->0));
            }
            Ok(out)
        },
        ThreadAction::Fetch { url, title, sender } => {
            let html = match fetched {
                Some(h) => h,
                None => {
                    return Err(HandlerError::Usage(String::from_str("nothing was fetched")));
                },
            };
            let title_ref = as_opt_str(&title);
            let sender_ref = as_opt_str(&sender);
            let answer = thread_uc.fetch(url.as_str(), title_ref, sender_ref, html.as_str());
            let thread = match answer {
                Ok(t) => t,
                Err(e) => { return Err(HandlerError::Domain(e)); },
            };
            let ghost stored = thread;
            assert(answer == Ok::<Thread, DomainError>(stored));
            assert(opt_text(fetched) == Some(html@));
            assert(thread_uc.answers_fetch(
                fetched_title(url@, opt_text(title)),
                url@,
                opt_text(sender),
                stored_rendering(html@),
                Ok(stored),
            ));
            let short = shorten_id(thread.id.as_str());
            let head = joined("取得して thread ", short.as_str());
            let mut notes: Vec<String> = Vec::new();
            notes.push(joined(head.as_str(), " として保存しました"));
            let out = Output { shown: Some(Rendering::Text(thread.id)), notes };
            assert(shows_text(out, stored.id@));
            assert(is_fetching(
                thread_uc,
                fetched_title(url@, opt_text(title)),
                url@,
                opt_text(sender),
                stored_rendering(html@),
                Ok(out),
            ));
            Ok(out)
        },
    }
}

/// The words of the note that an event went to a closed thread.
pub open spec fn closed_thread_note() -> Seq<char> {
    "警告: thread はクローズされています"@
}

/// The words of the note that tells how many messages an event stored.
pub open spec fn stored_note(stored: nat) -> Seq<char> {
    decimal_digits(stored) + " 件の message を取り込みました"@
}

/// `notes` are the notes for what became of an event: the warning where its
/// thread was found closed, then the number of messages stored.
pub open spec fn are_hook_notes(notes: Seq<String>, outcome: IngestOutcome) -> bool {
    if outcome.thread_closed {
        &&& notes.len() == 2
        &&& notes[0]@ == closed_thread_note()
        &&& notes[1]@ == stored_note(outcome.stored as nat)
    } else {
        &&& notes.len() == 1
        &&& notes[0]@ == stored_note(outcome.stored as nat)
    }
}

/// The notes for what became of an event.
pub fn hook_notes(outcome: IngestOutcome) -> (notes: Vec<String>)
    ensures
        are_hook_notes(notes@, outcome),
{
    let mut notes: Vec<String> = Vec::new();
    if outcome.thread_closed {
        notes.push(String::from_str("警告: thread はクローズされています"));
    }
    let count = decimal(outcome.stored);
    notes.push(joined(count.as_str(), " 件の message を取り込みました"));
    notes
}

/// `r` is what ingesting the event `input` answers: the error of the ingestion, or
/// nothing shown and the notes for what became of the event.
pub open spec fn is_ingesting<T: ThreadRepository, M: MessageRepository>(
    hook_uc: &HookUseCase<T, M>,
    r: Result<Output, HandlerError>,
    thread: Option<Seq<char>>,
    input: Seq<char>,
    transcript: Option<Seq<char>>,
) -> bool {
    exists|answer: Result<IngestOutcome, DomainError>| #[trigger]
        hook_uc.answers_event(thread, input, transcript, answer) && match answer {
            Ok(outcome) => r matches Ok(out) && out.shown is None && are_hook_notes(
                out.notes@,
                outcome,
            ),
            Err(e) => r == Err::<Output, HandlerError>(HandlerError::Domain(e)),
        }
}

/// Runs a command on hook events. `input` is the event that was read from standard
/// input, and `transcript` the transcript that was read for it, if any.
pub fn handle_hook<T: ThreadRepository, M: MessageRepository>(
    action: HookAction,
    hook_uc: &HookUseCase<T, M>,
    input: &str,
    transcript: Option<&str>,
) -> (r: Result<Output, HandlerError>)
    ensures
        r matches Ok(out) ==> out.shown is None && 1 <= out.notes@.len() <= 2,
        r matches Err(e) ==> e is Domain,
        match action {
            HookAction::Ingest { thread } => is_ingesting(
                hook_uc,
                r,
                opt_text(thread),
                input@,
                opt_str(transcript),
            ),
        },
{
    match action {
        HookAction::Ingest { thread } => {
            let scope: Option<&str> = match &thread {
                Some(t) => Some(t.as_str()),
                None => None,
            };
            let answer = hook_uc.ingest(scope, input, transcript);
            match answer {
                Ok(outcome) => Ok(Output { shown: None, notes: hook_notes(outcome) }),
                Err(e) => Err(HandlerError::Domain(e)),
            }
        },
    }
}

/// Whether a backup is to be made before `action` deletes: always, unless the
/// action says not to.
pub fn backup_wanted(action: &CleanupAction) -> (r: bool)
    ensures
        r == !action.skips_backup(),
{
    !action.no_backup()
}

/// The note that tells what a deletion removed.
pub open spec fn cleanup_note(action: CleanupAction, count: nat) -> Seq<char> {
    match action {
        CleanupAction::Age { days, .. } => signed_digits(days as int) + " 日より古い "@
            + decimal_digits(count) + " 件の message を削除しました"@,
        CleanupAction::Thread { id, .. } => "thread "@ + id@ + " と "@ + decimal_digits(count)
            + " 件の message を削除しました"@,
        CleanupAction::Session { id, .. } => "session "@ + id@ + " の "@ + decimal_digits(count)
            + " 件の message を削除しました"@,
    }
}

/// `answer` is what the deletion `action` answers: what deleting by age answers at
/// some instant, or what deleting by thread or by session answers for the thread
/// or the session named.
pub open spec fn is_cleanup_answer<T: ThreadRepository, M: MessageRepository>(
    cleanup_uc: &CleanupUseCase<T, M>,
    action: CleanupAction,
    answer: Result<usize, DomainError>,
) -> bool {
    match action {
        CleanupAction::Age { days, .. } => exists|at: Timestamp| #[trigger]
            cleanup_uc.answers_by_age(days, at, answer),
        CleanupAction::Thread { id, .. } => exists|name: &str|
            name@ == id@ && #[trigger] cleanup_uc.answers_by_thread(name, answer),
        CleanupAction::Session { id, .. } => exists|name: &str|
            name@ == id@ && #[trigger] cleanup_uc.answers_by_session(name, answer),
    }
}

/// `r` is what running the deletion `action` answers: the error of the deletion,
/// or the note of the number that it answered.
pub open spec fn is_cleaning<T: ThreadRepository, M: MessageRepository>(
    cleanup_uc: &CleanupUseCase<T, M>,
    action: CleanupAction,
    r: Result<Output, HandlerError>,
) -> bool {
    exists|answer: Result<usize, DomainError>| #[trigger]
        is_cleanup_answer(cleanup_uc, action, answer) && match answer {
            Ok(count) => r matches Ok(out) && is_note(out, cleanup_note(action, count as nat)),
            Err(e) => r == Err::<Output, HandlerError>(HandlerError::Domain(e)),
        }
}

/// Runs a deletion and notes how many messages it removed. The backup that is made
/// before, unless the action says not to, is the caller's to make.
pub fn handle_cleanup<T: ThreadRepository, M: MessageRepository>(
    action: CleanupAction,
    cleanup_uc: &CleanupUseCase<T, M>,
) -> (r: Result<Output, HandlerError>)
    ensures
        r matches Ok(out) ==> exists|count: nat| is_note(out, #[trigger] cleanup_note(action, count)),
        r matches Err(e) ==> e is Domain,
        is_cleaning(cleanup_uc, action, r),
{
    match action {
        CleanupAction::Age { days, .. } => {
            let answer = cleanup_uc.by_age(days);
            assert(is_cleanup_answer(cleanup_uc, action, answer));
            let count = match answer {
                Ok(n) => n,
                Err(e) => { return Err(HandlerError::Domain(e)); },
            };
            let days_text = signed_decimal(days);
            let a = joined(days_text.as_str(), " 日より古い ");
            let b = joined(a.as_str(), decimal(count).as_str());
            let out = note_output(joined(b.as_str(), " 件の message を削除しました"));
            assert(is_note(out, cleanup_note(action, count as nat)));
            Ok(out)
        },
        CleanupAction::Thread { id, .. } => {
            let name = id.as_str();
            let answer = cleanup_uc.by_thread(name);
            assert(is_cleanup_answer(cleanup_uc, action, answer));
            let count = match answer {
                Ok(n) => n,
                Err(e) => { return Err(HandlerError::Domain(e)); },
            };
            let a = thread_note(name, " と ");
            let b = joined(a.as_str(), decimal(count).as_str());
            let out = note_output(joined(b.as_str(), " 件の message を削除しました"));
            assert(is_note(out, cleanup_note(action, count as nat)));
            Ok(out)
        },
        CleanupAction::Session { id, .. } => {
            let name = id.as_str();
            let answer = cleanup_uc.by_session(name);
            assert(is_cleanup_answer(cleanup_uc, action, answer));
            let count = match answer {
                Ok(n) => n,
                Err(e) => { return Err(HandlerError::Domain(e)); },
            };
            let a = joined("session ", name);
            let b = joined(a.as_str(), " の ");
            let c = joined(b.as_str(), decimal(count).as_str());
            let out = note_output(joined(c.as_str(), " 件の message を削除しました"));
            assert(is_note(out, cleanup_note(action, count as nat)));
            Ok(out)
        },
    }
}

} // verus!
