//! How threads and messages are written to the store's columns and read back.
//!
//! Every column is text or absent. A role, a status or a phase is stored by its
//! lower-case name, an instant as `YYYY-MM-DD HH:MM:SS`, metadata as the JSON text
//! that the message holds.

use vstd::prelude::*;
use crate::domain::entity::{
    lemma_phase_name_round_trip, lemma_role_name_round_trip, lemma_status_name_round_trip,
    message_defect, thread_defect, Message, MessageView, Role, Thread, ThreadPhase,
    ThreadStatus, ThreadView,
};
use crate::domain::error::DomainError;
use crate::domain::instant::{format_datetime, parse_datetime, stored_instant, stored_text};
use crate::domain::json::{is_json, json_valid};
use crate::domain::text::opt_text;
use crate::infra::driver::{SqlValue, SqlValueView};

verus! {

/// The number of columns of a message row.
pub const MESSAGE_COLUMNS: usize = 11;

/// The number of columns of a thread row.
pub const THREAD_COLUMNS: usize = 8;

/// The columns of a row as mathematical values.
pub open spec fn columns_of(row: Seq<Option<String>>) -> Seq<Option<Seq<char>>> {
    Seq::new(row.len(), |i: int| opt_text(row[i]))
}

/// The parameter values as mathematical values.
pub open spec fn params_of(params: Seq<SqlValue>) -> Seq<SqlValueView> {
    Seq::new(params.len(), |i: int| params[i]@)
}

/// The parameter for a text that must be present.
pub open spec fn text_value(s: Seq<char>) -> SqlValueView {
    SqlValueView::Text(s)
}

/// The parameter for a text that may be absent.
pub open spec fn opt_value(o: Option<Seq<char>>) -> SqlValueView {
    match o {
        Some(s) => SqlValueView::Text(s),
        None => SqlValueView::Null,
    }
}

/// The column that the store returns for a parameter that was written to it.
pub open spec fn column_of_value(v: SqlValueView) -> Option<Seq<char>> {
    match v {
        SqlValueView::Text(s) => Some(s),
        _ => None,
    }
}

/// The parameters under which a message without defect is written.
pub open spec fn message_params(m: MessageView) -> Seq<SqlValueView> {
    seq![
        text_value(m.id),
        text_value(m.thread_id),
        opt_value(m.session_id),
        opt_value(m.sender),
        text_value(m.role.text()),
        text_value(m.content),
        opt_value(m.metadata),
        opt_value(m.parent_id),
        opt_value(m.source),
        text_value(stored_text(m.created_at)->0),
        text_value(stored_text(m.updated_at)->0),
    ]
}

/// Why a row cannot be read as a message: its first defect.
pub open spec fn message_row_defect(cols: Seq<Option<Seq<char>>>) -> Option<Seq<char>> {
    if cols.len() != MESSAGE_COLUMNS {
        Some("unexpected number of columns"@)
    } else if cols[0] is None || cols[1] is None || cols[4] is None || cols[5] is None
        || cols[9] is None || cols[10] is None {
        Some("required column is null"@)
    } else if stored_instant(cols[9]->0) is None || stored_instant(cols[10]->0) is None {
        Some("unreadable timestamp"@)
    } else {
        None
    }
}

/// The role that a stored name denotes; a name that denotes none reads as `User`.
pub open spec fn stored_role(name: Seq<char>) -> Role {
    match Role::named(name) {
        Some(r) => r,
        None => Role::User,
    }
}

/// The metadata that a stored column denotes: its text where that is a JSON
/// document, nothing otherwise.
pub open spec fn stored_metadata(col: Option<Seq<char>>) -> Option<Seq<char>> {
    match col {
        Some(text) => if json_valid(text) {
            Some(text)
        } else {
            None
        },
        None => None,
    }
}

/// The message that a row without defect denotes.
pub open spec fn message_of_row(cols: Seq<Option<Seq<char>>>) -> MessageView {
    MessageView {
        id: cols[0]->0,
        thread_id: cols[1]->0,
        session_id: cols[2],
        sender: cols[3],
        role: stored_role(cols[4]->0),
        content: cols[5]->0,
        metadata: stored_metadata(cols[6]),
        parent_id: cols[7],
        source: cols[8],
        created_at: stored_instant(cols[9]->0)->0,
        updated_at: stored_instant(cols[10]->0)->0,
    }
}

/// The stored name of an optional phase.
pub open spec fn phase_value(p: Option<ThreadPhase>) -> SqlValueView {
    match p {
        Some(phase) => SqlValueView::Text(phase.text()),
        None => SqlValueView::Null,
    }
}

/// The parameters under which a thread without defect is written.
pub open spec fn thread_params(t: ThreadView) -> Seq<SqlValueView> {
    seq![
        text_value(t.id),
        opt_value(t.name),
        text_value(t.title),
        opt_value(t.source_url),
        text_value(t.status.text()),
        phase_value(t.phase),
        text_value(stored_text(t.created_at)->0),
        text_value(stored_text(t.updated_at)->0),
    ]
}

/// Why a row cannot be read as a thread: its first defect.
pub open spec fn thread_row_defect(cols: Seq<Option<Seq<char>>>) -> Option<Seq<char>> {
    if cols.len() != THREAD_COLUMNS {
        Some("unexpected number of columns"@)
    } else if cols[0] is None || cols[2] is None || cols[6] is None || cols[7] is None {
        Some("required column is null"@)
    } else if stored_instant(cols[6]->0) is None || stored_instant(cols[7]->0) is None {
        Some("unreadable timestamp"@)
    } else {
        None
    }
}

/// The status that a stored column denotes; an absent or unknown name reads as `Open`.
pub open spec fn stored_status(col: Option<Seq<char>>) -> ThreadStatus {
    match col {
        Some(name) => match ThreadStatus::named(name) {
            Some(s) => s,
            None => ThreadStatus::Open,
        },
        None => ThreadStatus::Open,
    }
}

/// The phase that a stored column denotes; an absent or unknown name reads as unset.
pub open spec fn stored_phase(col: Option<Seq<char>>) -> Option<ThreadPhase> {
    match col {
        Some(name) => ThreadPhase::named(name),
        None => None,
    }
}

/// The thread that a row without defect denotes.
pub open spec fn thread_of_row(cols: Seq<Option<Seq<char>>>) -> ThreadView {
    ThreadView {
        id: cols[0]->0,
        name: cols[1],
        title: cols[2]->0,
        source_url: cols[3],
        status: stored_status(cols[4]),
        phase: stored_phase(cols[5]),
        created_at: stored_instant(cols[6]->0)->0,
        updated_at: stored_instant(cols[7]->0)->0,
    }
}

/// The parameter for a text.
pub fn text_param(s: &str) -> (v: SqlValue)
    ensures
        v@ == text_value(s@),
{
    SqlValue::Text(String::from_str(s))
}

/// The parameter for a text that may be absent.
pub fn opt_param(o: &Option<String>) -> (v: SqlValue)
    ensures
        v@ == opt_value(opt_text(*o)),
{
    match o {
        Some(s) => SqlValue::Text(s.clone()),
        None => SqlValue::Null,
    }
}

/// The parameters under which `m` is written, or the input error that names its
/// first defect.
pub fn encode_message(m: &Message) -> (r: Result<Vec<SqlValue>, DomainError>)
    ensures
        match r {
            Ok(params) => message_defect(m@) is None && params_of(params@) == message_params(m@),
            Err(e) => e matches DomainError::InvalidInput(why) && message_defect(m@) == Some(why@),
        },
{
    if let Some(text) = &m.metadata {
        if !is_json(text.as_str()) {
            return Err(DomainError::InvalidInput(String::from_str("metadata is not valid JSON")));
        }
    }
    let created = format_datetime(&m.created_at);
    let updated = format_datetime(&m.updated_at);
    match (created, updated) {
        (Some(c), Some(u)) => {
            let mut params: Vec<SqlValue> = Vec::new();
            params.push(text_param(m.id.as_str()));
            params.push(text_param(m.thread_id.as_str()));
            params.push(opt_param(&m.session_id));
            params.push(opt_param(&m.sender));
            params.push(text_param(m.role.as_str()));
            params.push(text_param(m.content.as_str()));
            params.push(opt_param(&m.metadata));
            params.push(opt_param(&m.parent_id));
            params.push(opt_param(&m.source));
            params.push(SqlValue::Text(c));
            params.push(SqlValue::Text(u));
            assert(params_of(params@) =~= message_params(m@));
            Ok(params)
        },
        _ => Err(DomainError::InvalidInput(String::from_str("timestamp out of range"))),
    }
}

/// The parameters under which `t` is written, or the input error that names its
/// defect.
pub fn encode_thread(t: &Thread) -> (r: Result<Vec<SqlValue>, DomainError>)
    ensures
        match r {
            Ok(params) => thread_defect(t@) is None && params_of(params@) == thread_params(t@),
            Err(e) => e matches DomainError::InvalidInput(why) && thread_defect(t@) == Some(why@),
        },
{
    if t.updated_at.is_before(&t.created_at) {
        return Err(
            DomainError::InvalidInput(String::from_str("thread is updated before it is created")),
        );
    }
    let created = format_datetime(&t.created_at);
    let updated = format_datetime(&t.updated_at);
    match (created, updated) {
        (Some(c), Some(u)) => {
            let mut params: Vec<SqlValue> = Vec::new();
            params.push(text_param(t.id.as_str()));
            params.push(opt_param(&t.name));
            params.push(text_param(t.title.as_str()));
            params.push(opt_param(&t.source_url));
            params.push(text_param(t.status.as_str()));
            params.push(
                match t.phase {
                    Some(p) => text_param(p.as_str()),
                    None => SqlValue::Null,
                },
            );
            params.push(SqlValue::Text(c));
            params.push(SqlValue::Text(u));
            assert(params_of(params@) =~= thread_params(t@));
            Ok(params)
        },
        _ => Err(DomainError::InvalidInput(String::from_str("timestamp out of range"))),
    }
}

/// The store error for a row that cannot be read.
fn row_error(why: &str) -> (e: DomainError)
    ensures
        e matches DomainError::Database(text) && text@ == why@,
{
    DomainError::Database(String::from_str(why))
}

/// The message that `row` denotes, or the store error that names its first defect.
pub fn decode_message(row: Vec<Option<String>>) -> (r: Result<Message, DomainError>)
    ensures
        match r {
            Ok(m) => message_row_defect(columns_of(row@)) is None && m@ == message_of_row(
                columns_of(row@),
            ),
            Err(e) => e matches DomainError::Database(why) && message_row_defect(columns_of(row@))
                == Some(why@),
        },
{
    let ghost cols = columns_of(row@);
    let mut row = row;
    if row.len() != MESSAGE_COLUMNS {
        return Err(row_error("unexpected number of columns"));
    }
    let updated = row.pop().unwrap();
    let created = row.pop().unwrap();
    let source = row.pop().unwrap();
    let parent_id = row.pop().unwrap();
    let metadata = row.pop().unwrap();
    let content = row.pop().unwrap();
    let role = row.pop().unwrap();
    let sender = row.pop().unwrap();
    let session_id = row.pop().unwrap();
    let thread_id = row.pop().unwrap();
    let id = row.pop().unwrap();
    proof {
        assert(opt_text(id) == cols[0]);
        assert(opt_text(thread_id) == cols[1]);
        assert(opt_text(session_id) == cols[2]);
        assert(opt_text(sender) == cols[3]);
        assert(opt_text(role) == cols[4]);
        assert(opt_text(content) == cols[5]);
        assert(opt_text(metadata) == cols[6]);
        assert(opt_text(parent_id) == cols[7]);
        assert(opt_text(source) == cols[8]);
        assert(opt_text(created) == cols[9]);
        assert(opt_text(updated) == cols[10]);
    }
    match (id, thread_id, role, content, created, updated) {
        (Some(id), Some(thread_id), Some(role), Some(content), Some(created), Some(updated)) => {
            let created_at = parse_datetime(created.as_str());
            let updated_at = parse_datetime(updated.as_str());
            match (created_at, updated_at) {
                (Some(created_at), Some(updated_at)) => {
                    let role = match Role::from_str(role.as_str()) {
                        Ok(r) => r,
                        Err(_) => Role::User,
                    };
                    let metadata = match metadata {
                        Some(text) => if is_json(text.as_str()) {
                            Some(text)
                        } else {
                            None
                        },
                        None => None,
                    };
                    Ok(
                        Message {
                            id,
                            thread_id,
                            session_id,
                            sender,
                            role,
                            content,
                            metadata,
                            parent_id,
                            source,
                            created_at,
                            updated_at,
                        },
                    )
                },
                _ => Err(row_error("unreadable timestamp")),
            }
        },
        _ => Err(row_error("required column is null")),
    }
}

/// The thread that `row` denotes, or the store error that names its first defect.
pub fn decode_thread(row: Vec<Option<String>>) -> (r: Result<Thread, DomainError>)
    ensures
        match r {
            Ok(t) => thread_row_defect(columns_of(row@)) is None && t@ == thread_of_row(
                columns_of(row@),
            ),
            Err(e) => e matches DomainError::Database(why) && thread_row_defect(columns_of(row@))
                == Some(why@),
        },
{
    let ghost cols = columns_of(row@);
    let mut row = row;
    if row.len() != THREAD_COLUMNS {
        return Err(row_error("unexpected number of columns"));
    }
    let updated = row.pop().unwrap();
    let created = row.pop().unwrap();
    let phase = row.pop().unwrap();
    let status = row.pop().unwrap();
    let source_url = row.pop().unwrap();
    let title = row.pop().unwrap();
    let name = row.pop().unwrap();
    let id = row.pop().unwrap();
    proof {
        assert(opt_text(id) == cols[0]);
        assert(opt_text(name) == cols[1]);
        assert(opt_text(title) == cols[2]);
        assert(opt_text(source_url) == cols[3]);
        assert(opt_text(status) == cols[4]);
        assert(opt_text(phase) == cols[5]);
        assert(opt_text(created) == cols[6]);
        assert(opt_text(updated) == cols[7]);
    }
    match (id, title, created, updated) {
        (Some(id), Some(title), Some(created), Some(updated)) => {
            let created_at = parse_datetime(created.as_str());
            let updated_at = parse_datetime(updated.as_str());
            match (created_at, updated_at) {
                (Some(created_at), Some(updated_at)) => {
                    let status = match status {
                        Some(text) => match ThreadStatus::from_str(text.as_str()) {
                            Ok(s) => s,
                            Err(_) => ThreadStatus::Open,
                        },
                        None => ThreadStatus::Open,
                    };
                    let phase = match phase {
                        Some(text) => match ThreadPhase::from_str(text.as_str()) {
                            Ok(p) => Some(p),
                            Err(_) => None,
                        },
                        None => None,
                    };
                    Ok(
                        Thread {
                            id,
                            name,
                            title,
                            source_url,
                            status,
                            phase,
                            created_at,
                            updated_at,
                        },
                    )
                },
                _ => Err(row_error("unreadable timestamp")),
            }
        },
        _ => Err(row_error("required column is null")),
    }
}

/// What is written for a message reads back as that message: when the columns that
/// the store returns are the parameters that were written, and the row can be read
/// at all, then identifiers, session, sender, role, content, metadata, parent and
/// source of the message read are those of the message written.
pub proof fn lemma_message_round_trip(m: MessageView)
    requires
        message_defect(m) is None,
    ensures
        ({
            let cols = message_params(m).map_values(|v: SqlValueView| column_of_value(v));
            message_row_defect(cols) is None ==> {
                let back = message_of_row(cols);
                &&& back.id == m.id
                &&& back.thread_id == m.thread_id
                &&& back.session_id == m.session_id
                &&& back.sender == m.sender
                &&& back.role == m.role
                &&& back.content == m.content
                &&& back.metadata == m.metadata
                &&& back.parent_id == m.parent_id
                &&& back.source == m.source
            }
        }),
{
    lemma_role_name_round_trip(m.role);
}

/// What is written for a thread reads back as that thread: when the columns that
/// the store returns are the parameters that were written, and the row can be read
/// at all, then identifier, name, title, source, status and phase of the thread
/// read are those of the thread written.
pub proof fn lemma_thread_round_trip(t: ThreadView)
    requires
        thread_defect(t) is None,
    ensures
        ({
            let cols = thread_params(t).map_values(|v: SqlValueView| column_of_value(v));
            thread_row_defect(cols) is None ==> {
                let back = thread_of_row(cols);
                &&& back.id == t.id
                &&& back.name == t.name
                &&& back.title == t.title
                &&& back.source_url == t.source_url
                &&& back.status == t.status
                &&& back.phase == t.phase
            }
        }),
{
    lemma_status_name_round_trip(t.status);
    if let Some(p) = t.phase {
        lemma_phase_name_round_trip(p);
    }
}

} // verus!
