//! The command surface over the single connection.
//!
//! A `Store` owns the one physical connection.  Both commands take the
//! store by exclusive reference, so all access is serialized one call at
//! a time: a caller that shares a `Store` between concurrent call sites
//! must put it behind a mutual-exclusion lock, and each call's reported
//! outcome then reflects only its own statement.

use crate::schema;
use crate::sqlite;
use crate::values::{decode_table, marshal_params, DynValue};
use vstd::prelude::*;

verus! {

/// The embedded relational store: one physical connection.
pub struct Store {
    conn: rusqlite::Connection,
}

/// What a mutating statement reports: the store's most-recent-insert row
/// identifier (meaningful only if the statement was an insert) and the
/// number of rows the statement changed.
pub struct ExecOutcome {
    pub last_insert_id: i64,
    pub rows_affected: usize,
}

impl Store {
    /// Opens (or creates) the database at `path` — `":memory:"` for an
    /// in-memory store — without touching the schema.  A failure to open
    /// is reported, not escalated; the caller treats it as fatal.
    pub fn open(path: &str) -> (r: Result<Store, String>) {
        match sqlite::conn_open(path) {
            Ok(conn) => Ok(Store { conn }),
            Err(e) => Err(sqlite::error_message(e)),
        }
    }

    /// Runs the idempotent schema batch, then seeds the default settings
    /// rows and the singleton timer row, each inserted only if absent.
    /// Safe to run against an already-initialized store: nothing is
    /// duplicated and no existing value is overwritten.  Any failure
    /// aborts the remainder and is reported; the caller treats it as
    /// fatal and accepts no command.
    pub fn init_schema(&mut self) -> (r: Result<(), String>) {
        match sqlite::conn_execute_batch(&self.conn, schema::SCHEMA_SQL) {
            Ok(_) => {}
            Err(e) => {
                return Err(sqlite::error_message(e));
            }
        }
        let mut seeds = schema::default_settings();
        while seeds.len() > 0
            decreases seeds@.len(),
        {
            let (key, value) = seeds.remove(0);
            let mut params: Vec<DynValue> = Vec::new();
            params.push(DynValue::Text(key));
            params.push(DynValue::Text(value));
            match self.execute(schema::SEED_SETTING_SQL, params) {
                Ok(_) => {}
                Err(e) => {
                    return Err(e);
                }
            }
        }
        match self.execute(schema::SEED_POMODORO_SQL, Vec::new()) {
            Ok(_) => Ok(()),
            Err(e) => Err(e),
        }
    }

    /// Runs one mutating statement: marshals every dynamic value onto a
    /// bind parameter positionally (by `marshal_spec`, order and count
    /// preserved — the driver is handed `marshal_params(params)` itself),
    /// runs the caller's SQL with them, and reports the store's
    /// most-recent-insert rowid and the rows changed by this statement
    /// alone.  What is mutated is bounded only by the supplied SQL and
    /// the store's own constraint enforcement; any driver error —
    /// compilation, bind arity, constraint violation — aborts just this
    /// call and is reported as its opaque message.
    pub fn execute(&mut self, sql: &str, params: Vec<DynValue>) -> (r: Result<
        ExecOutcome,
        String,
    >) {
        let bound = marshal_params(params);
        match sqlite::conn_execute(&self.conn, sql, bound) {
            Ok(rows_affected) => {
                let last_insert_id = sqlite::conn_last_insert_rowid(&self.conn);
                Ok(ExecOutcome { last_insert_id, rows_affected })
            }
            Err(e) => Err(sqlite::error_message(e)),
        }
    }

    /// Runs one read-only statement: marshals the dynamic values as
    /// `execute` does — the driver is handed `marshal_params(params)`
    /// itself — prepares and runs the query, and returns `decode_table`
    /// applied to the driver's result rows: every cell decoded through
    /// `decode_spec`, paired with its column name from the statement's
    /// result metadata, in declared column order.  Row order is whatever
    /// the statement produces.  Every returned row has the same width
    /// and the same column names in the same positions.
    pub fn select(&mut self, sql: &str, params: Vec<DynValue>) -> (r: Result<
        Vec<Vec<(String, DynValue)>>,
        String,
    >)
        ensures
            r matches Ok(rows) ==> forall|i: int, j: int|
                0 <= i < rows@.len() && 0 <= j < rows@.len() ==> (#[trigger] rows@[i])@.len() == (
                #[trigger] rows@[j])@.len(),
            r matches Ok(rows) ==> forall|i: int, j: int, k: int|
                0 <= i < rows@.len() && 0 <= j < rows@.len() && 0 <= k < rows@[i]@.len() ==> (
                #[trigger] rows@[i]@[k]).0 == (#[trigger] rows@[j]@[k]).0,
    {
        let bound = marshal_params(params);
        match sqlite::conn_query(&self.conn, sql, bound) {
            Ok((names, cell_rows)) => Ok(decode_table(&names, cell_rows)),
            Err(e) => Err(sqlite::error_message(e)),
        }
    }
}

} // verus!
