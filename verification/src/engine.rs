//! The storage engine, as far as the repository relies on it.
//!
//! Everything in this file is trusted: each function body is one call into
//! `rusqlite`, and its contract is believed, not proved. No contract claims
//! anything of a result. What the engine answers depends on the statement
//! and on the contents of the store, so the repository is verified for every
//! answer it may give.

use vstd::prelude::*;
use crate::values::SqlValue;

verus! {

/// `rusqlite::Connection`, a connection to one store.
#[verifier::external_type_specification]
#[verifier::external_body]
pub struct ExConnection(rusqlite::Connection);

/// `rusqlite::Statement`, a compiled statement.
#[verifier::external_type_specification]
#[verifier::external_body]
pub struct ExStatement<'conn>(rusqlite::Statement<'conn>);

/// `rusqlite::Rows`, the cursor over the rows of a running query.
#[verifier::external_type_specification]
#[verifier::external_body]
pub struct ExRows<'stmt>(rusqlite::Rows<'stmt>);

/// `rusqlite::Row`, the row a cursor stands on.
#[verifier::external_type_specification]
#[verifier::external_body]
pub struct ExRow<'stmt>(rusqlite::Row<'stmt>);

/// `rusqlite::Error`, a failure reported by the engine.
#[verifier::external_type_specification]
#[verifier::external_body]
pub struct ExEngineError(rusqlite::Error);

/// `rusqlite::types::Value`, a value in the engine's own representation.
#[verifier::external_type_specification]
#[verifier::external_body]
pub struct ExEngineValue(rusqlite::types::Value);

/// `std::path::PathBuf`, the location of a store file.
#[verifier::external_type_specification]
#[verifier::external_body]
pub struct ExPathBuf(std::path::PathBuf);

/// `rusqlite::Connection::open`: opens the store file at `path` for reading
/// and writing, creating it when it does not exist. Nothing is claimed about
/// the outcome, which depends on the disk.
#[verifier::external_body]
pub(crate) fn open_connection(path: &std::path::PathBuf) -> (opened: Result<
    rusqlite::Connection,
    rusqlite::Error,
>) {
    rusqlite::Connection::open(path)
}

/// `rusqlite::types::Value::Null`, the engine's null. The value is opaque to
/// the verifier, so nothing is claimed about it.
#[verifier::external_body]
pub(crate) fn engine_null() -> (value: rusqlite::types::Value) {
    rusqlite::types::Value::Null
}

/// `rusqlite::types::Value::from` on an integer: the engine's value for it.
/// The value is opaque to the verifier, so nothing is claimed about it.
#[verifier::external_body]
pub(crate) fn engine_integer(i: i64) -> (value: rusqlite::types::Value) {
    rusqlite::types::Value::from(i)
}

/// `rusqlite::types::Value::from` on a string: the engine's value for it.
/// The value is opaque to the verifier, so nothing is claimed about it.
#[verifier::external_body]
pub(crate) fn engine_text(text: String) -> (value: rusqlite::types::Value) {
    rusqlite::types::Value::from(text)
}

/// `rusqlite::Connection::execute`: runs one statement that returns no rows,
/// with `params` bound by position, and reports the number of rows changed.
/// Nothing is claimed about the outcome.
#[verifier::external_body]
pub(crate) fn conn_execute(
    conn: &rusqlite::Connection,
    sql: &str,
    params: Vec<rusqlite::types::Value>,
) -> (changed: Result<usize, rusqlite::Error>) {
    conn.execute(sql, rusqlite::params_from_iter(params))
}

/// `rusqlite::Connection::last_insert_rowid`: the row id of the most recent
/// successful insert on this connection, zero if there was none. Nothing is
/// claimed about its value.
#[verifier::external_body]
pub(crate) fn conn_last_insert_rowid(conn: &rusqlite::Connection) -> (rowid: i64) {
    conn.last_insert_rowid()
}

/// `rusqlite::Connection::prepare`: compiles one statement. Nothing is
/// claimed about the outcome.
#[verifier::external_body]
pub(crate) fn conn_prepare<'conn>(conn: &'conn rusqlite::Connection, sql: &str) -> (prepared:
    Result<rusqlite::Statement<'conn>, rusqlite::Error>) {
    conn.prepare(sql)
}

/// `rusqlite::Statement::column_count`: the number of columns in the rows
/// that the statement returns. Nothing is claimed about the number.
#[verifier::external_body]
pub(crate) fn stmt_column_count(stmt: &rusqlite::Statement<'_>) -> (count: usize) {
    stmt.column_count()
}

/// `rusqlite::Statement::column_name`: the name of result column `col`, or an
/// error when `col` is out of range. Nothing is claimed about the outcome.
///
/// `rusqlite` panics on a name that is not UTF-8. The engine takes the names
/// it reports from the statement text, which is UTF-8 as every `&str` is, and
/// from the names of the databases, tables, views and columns of the
/// connection. With `names_checked` the caller states that it listed all of
/// those names just before the statement was prepared, with no statement run
/// in between, and found each to be UTF-8; the call is made on no other
/// condition. That the engine has no further source of names is its
/// documented behaviour, not something that `rusqlite` shows.
#[verifier::external_body]
pub(crate) fn stmt_column_name(
    stmt: &rusqlite::Statement<'_>,
    col: usize,
    names_checked: bool,
) -> (name: Result<String, rusqlite::Error>)
    requires
        names_checked,
{
    stmt.column_name(col).map(|name| name.to_string())
}

/// `rusqlite::Statement::query`: binds `params` by position, starts the
/// query and hands out the cursor over its rows. Nothing is claimed about
/// the outcome.
#[verifier::external_body]
pub(crate) fn stmt_query<'stmt>(
    stmt: &'stmt mut rusqlite::Statement<'_>,
    params: Vec<rusqlite::types::Value>,
) -> (cursor: Result<rusqlite::Rows<'stmt>, rusqlite::Error>) {
    stmt.query(rusqlite::params_from_iter(params))
}

/// `rusqlite::Rows::next`: steps to the next row; `Ok(None)` after the last.
/// Nothing is claimed about the outcome, nor that the rows ever end.
#[verifier::external_body]
pub(crate) fn rows_next<'a, 'stmt>(rows: &'a mut rusqlite::Rows<'stmt>) -> (row: Result<
    Option<&'a rusqlite::Row<'stmt>>,
    rusqlite::Error,
>) {
    rows.next()
}

/// `rusqlite::Row::get_ref`: the value in column `col` of the row, or an
/// error when `col` is out of range. The value is converted variant for
/// variant: a real number to the text it prints as, text to a string with a
/// replacement character for each byte sequence that is not UTF-8. Nothing
/// is claimed about the outcome.
#[verifier::external_body]
pub(crate) fn row_value(row: &rusqlite::Row<'_>, col: usize) -> (value: Result<
    SqlValue,
    rusqlite::Error,
>) {
    Ok(
        match row.get_ref(col)? {
            rusqlite::types::ValueRef::Null => SqlValue::Null,
            rusqlite::types::ValueRef::Integer(i) => SqlValue::Integer(i),
            rusqlite::types::ValueRef::Real(r) => SqlValue::Real(r.to_string()),
            rusqlite::types::ValueRef::Text(t) => SqlValue::Text(
                String::from_utf8_lossy(t).into_owned(),
            ),
            rusqlite::types::ValueRef::Blob(b) => SqlValue::Blob(b.to_vec()),
        },
    )
}

/// `rusqlite::Row::get_ref`: whether the value in column `col` of the row is
/// free of text that is not UTF-8, or an error when `col` is out of range. A
/// value that is no text is free of it. Nothing is claimed about the outcome.
#[verifier::external_body]
pub(crate) fn row_text_decodes(row: &rusqlite::Row<'_>, col: usize) -> (decodes: Result<
    bool,
    rusqlite::Error,
>) {
    Ok(
        match row.get_ref(col)? {
            rusqlite::types::ValueRef::Text(t) => std::str::from_utf8(t).is_ok(),
            _ => true,
        },
    )
}

/// The `Display` text of a `rusqlite::Error`. Nothing is claimed about it.
#[verifier::external_body]
pub(crate) fn error_text(e: &rusqlite::Error) -> (text: String) {
    e.to_string()
}

} // verus!
