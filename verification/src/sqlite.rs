//! The trusted boundary to the SQLite driver.  Every call into `rusqlite`
//! that the library makes stands here, behind a small wrapper whose
//! contract Verus believes; nothing else in the crate is trusted.

use crate::values::{BindParam, SqlCell};
use vstd::prelude::*;

verus! {

#[verifier::external_type_specification]
#[verifier::external_body]
pub struct ExConnection(rusqlite::Connection);

#[verifier::external_type_specification]
#[verifier::external_body]
pub struct ExSqlValue(rusqlite::types::Value);

#[verifier::external_type_specification]
#[verifier::external_body]
pub struct ExSqlError(rusqlite::Error);

/// Relies on `rusqlite::Connection::open`: opens (or creates) the database
/// at `path`, or reports the driver's error.
#[verifier::external_body]
pub(crate) fn conn_open(path: &str) -> (r: Result<rusqlite::Connection, rusqlite::Error>) {
    rusqlite::Connection::open(path)
}

/// Relies on `rusqlite::Connection::execute_batch`: runs each statement of
/// the semicolon-separated batch in order, stopping at the first error.
#[verifier::external_body]
pub(crate) fn conn_execute_batch(conn: &rusqlite::Connection, sql: &str) -> (r: Result<
    (),
    rusqlite::Error,
>) {
    conn.execute_batch(sql)
}

/// Relies on `rusqlite::Connection::execute`: prepares `sql`, binds the
/// marshalled parameters positionally — each converted one-for-one to the
/// driver's value by `to_sql_value`, so the driver is handed exactly the
/// parameters given here, in order — runs the statement once, and returns
/// the number of rows the statement changed.
#[verifier::external_body]
pub(crate) fn conn_execute(
    conn: &rusqlite::Connection,
    sql: &str,
    params: Vec<BindParam>,
) -> (r: Result<usize, rusqlite::Error>) {
    conn.execute(sql, rusqlite::params_from_iter(params.into_iter().map(to_sql_value)))
}

/// Relies on `rusqlite::Connection::last_insert_rowid`: returns the rowid
/// of the most recent successful insert on this connection.
#[verifier::external_body]
pub(crate) fn conn_last_insert_rowid(conn: &rusqlite::Connection) -> (r: i64) {
    conn.last_insert_rowid()
}

/// Relies on `rusqlite::Connection::prepare`, `Statement::column_names`,
/// `Statement::query`, `Rows::next` and `Row::get`: prepares `sql`, takes
/// the column names from the prepared statement's result metadata, binds
/// the marshalled parameters positionally (converted one-for-one by
/// `to_sql_value`, as in `conn_execute`), and collects every result row's
/// cells in column order, each converted one-for-one by `to_cell`, one
/// cell per column name and one returned row per result row, in statement
/// order.  Column names are UTF-8 text, having come from the UTF-8 SQL
/// that created each schema object or alias; a text cell that is not
/// valid UTF-8 makes the whole call report the driver's error.
#[verifier::external_body]
pub(crate) fn conn_query(
    conn: &rusqlite::Connection,
    sql: &str,
    params: Vec<BindParam>,
) -> (r: Result<(Vec<String>, Vec<Vec<SqlCell>>), rusqlite::Error>)
    ensures
        r matches Ok(t) ==> forall|i: int|
            0 <= i < t.1@.len() ==> (#[trigger] t.1@[i])@.len() == t.0@.len(),
{
    let mut stmt = conn.prepare(sql)?;
    let names: Vec<String> = stmt.column_names().iter().map(|s| s.to_string()).collect();
    let mut rows = stmt.query(rusqlite::params_from_iter(params.into_iter().map(to_sql_value)))?;
    let mut table: Vec<Vec<SqlCell>> = Vec::new();
    while let Some(row) = rows.next()? {
        let mut cells: Vec<SqlCell> = Vec::new();
        for i in 0..names.len() {
            cells.push(to_cell(row.get(i)?));
        }
        table.push(cells);
    }
    Ok((names, table))
}

/// Relies on `rusqlite::types::Value`: its variants are exactly SQLite's
/// storage classes, and `ToSql` for `Value` binds each variant as that
/// class.  Converts one bind parameter, one variant per arm.  Part of the
/// trusted boundary itself: only the two wrapper bodies above call it,
/// never verified code.
#[verifier::external_body]
fn to_sql_value(p: BindParam) -> (r: rusqlite::types::Value) {
    match p {
        BindParam::Text(s) => rusqlite::types::Value::Text(s),
        BindParam::Integer(i) => rusqlite::types::Value::Integer(i),
        BindParam::Real(v) => v,
        BindParam::Null => rusqlite::types::Value::Null,
    }
}

/// Relies on `rusqlite::types::Value` being one of `Null`, `Integer`,
/// `Real`, `Text` or `Blob`: converts one cell, one variant per arm, the
/// `Real` variant carried opaquely.  Part of the trusted boundary itself:
/// only `conn_query`'s body calls it, never verified code.
#[verifier::external_body]
fn to_cell(v: rusqlite::types::Value) -> (r: SqlCell) {
    match v {
        rusqlite::types::Value::Null => SqlCell::Null,
        rusqlite::types::Value::Integer(i) => SqlCell::Integer(i),
        rusqlite::types::Value::Text(s) => SqlCell::Text(s),
        rusqlite::types::Value::Blob(b) => SqlCell::Blob(b),
        r @ rusqlite::types::Value::Real(_) => SqlCell::Real(r),
    }
}

/// Relies on `rusqlite::Error`'s `Display` impl: renders the driver's
/// error as the single opaque message string this layer reports.
#[verifier::external_body]
pub(crate) fn error_message(e: rusqlite::Error) -> (r: String) {
    e.to_string()
}

} // verus!
