//! The boundary to the embedded store. Each function here hands one request to
//! rusqlite and returns what came back; none of them promises anything about what
//! the store holds, which other processes may change between any two calls.

use vstd::prelude::*;

verus! {

/// A connection to the embedded store. Proofs see nothing inside it.
#[verifier::external_type_specification]
#[verifier::external_body]
pub struct ExConnection(rusqlite::Connection);

/// A failure reported by the embedded store.
#[verifier::external_type_specification]
#[verifier::external_body]
pub struct ExStoreError(rusqlite::Error);

/// One value bound to a statement parameter.
#[derive(Debug, Clone, PartialEq, Eq)]
pub enum SqlValue {
    Null,
    Integer(i64),
    Text(String),
}

/// What a parameter value holds, as a mathematical value.
pub enum SqlValueView {
    Null,
    Integer(int),
    Text(Seq<char>),
}

impl View for SqlValue {
    type V = SqlValueView;

    open spec fn view(&self) -> SqlValueView {
        match self {
            SqlValue::Null => SqlValueView::Null,
            SqlValue::Integer(i) => SqlValueView::Integer(*i as int),
            SqlValue::Text(s) => SqlValueView::Text(s@),
        }
    }
}

/// `rusqlite::Connection::open`: a connection to the store kept in the file at
/// `path`, which is created if it is missing. Nothing is claimed of the outcome.
#[verifier::external_body]
pub(crate) fn open_file(path: &str) -> (r: Result<rusqlite::Connection, rusqlite::Error>) {
    rusqlite::Connection::open(path)
}

/// `rusqlite::Connection::open_in_memory`: a connection to a fresh store that lives
/// in this process only. Nothing is claimed of the outcome.
#[verifier::external_body]
pub(crate) fn open_memory() -> (r: Result<rusqlite::Connection, rusqlite::Error>) {
    rusqlite::Connection::open_in_memory()
}

/// `rusqlite::Connection::execute_batch`: runs the statements of `sql` in order,
/// without parameters. Nothing is claimed of the outcome.
#[verifier::external_body]
pub(crate) fn run_batch(conn: &rusqlite::Connection, sql: &str) -> (r: Result<
    (),
    rusqlite::Error,
>) {
    conn.execute_batch(sql)
}

/// `rusqlite::Connection::execute`: runs one statement with `params` bound to its
/// placeholders in order and returns the number of rows that it changed. Nothing is
/// claimed of the outcome.
#[verifier::external_body]
pub(crate) fn run_statement(conn: &rusqlite::Connection, sql: &str, params: &Vec<SqlValue>) -> (r:
    Result<usize, rusqlite::Error>) {
    conn.execute(sql, rusqlite::params_from_iter(params.iter().map(|p| match p {
        SqlValue::Null => rusqlite::types::Value::Null,
        SqlValue::Integer(i) => rusqlite::types::Value::Integer(*i),
        SqlValue::Text(s) => rusqlite::types::Value::Text(s.clone()),
    })))
}

/// `rusqlite::Statement::query_map` with `Row::get`: runs one query with `params`
/// bound and returns, row by row, the first `columns` columns read as text that may
/// be absent. Every row of a success has exactly `columns` entries, one for each
/// column read; nothing else is claimed of the outcome.
#[verifier::external_body]
pub(crate) fn query_texts(
    conn: &rusqlite::Connection,
    sql: &str,
    params: &Vec<SqlValue>,
    columns: usize,
) -> (r: Result<Vec<Vec<Option<String>>>, rusqlite::Error>)
    ensures
        r matches Ok(rows) ==> forall|i: int| 0 <= i < rows@.len() ==> (#[trigger] rows@[i])@.len()
            == columns,
{
    let mut stmt = conn.prepare(sql)?;
    let bound = rusqlite::params_from_iter(params.iter().map(|p| match p {
        SqlValue::Null => rusqlite::types::Value::Null,
        SqlValue::Integer(i) => rusqlite::types::Value::Integer(*i),
        SqlValue::Text(s) => rusqlite::types::Value::Text(s.clone()),
    }));
    let rows = stmt.query_map(bound, |row| (0..columns).map(|i| row.get(i)).collect())?;
    rows.collect()
}

/// `rusqlite::Connection::query_row` with `Row::get`: the first column of the first
/// row of a query without parameters, read as an integer. Nothing is claimed of the
/// outcome.
#[verifier::external_body]
pub(crate) fn query_integer(conn: &rusqlite::Connection, sql: &str) -> (r: Result<
    i64,
    rusqlite::Error,
>) {
    conn.query_row(sql, [], |row| row.get(0))
}

/// `<rusqlite::Error as Display>::fmt`: the store's own description of a failure.
/// Nothing is claimed of the text.
#[verifier::external_body]
pub(crate) fn error_text(e: &rusqlite::Error) -> (s: String) {
    e.to_string()
}

} // verus!
