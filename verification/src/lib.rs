//! Local persistence layer of a single-user study-tracking application.
//!
//! The crate owns one embedded SQLite store and exposes two generic
//! operations — a mutating `execute` and a read-only `select` — that take
//! arbitrary parameterized SQL text and a sequence of dynamically typed
//! values.  The marshalling of dynamic values onto store bind parameters,
//! the decoding of result cells back into dynamic values, and the schema
//! batch with its seed rows are verified; the calls into the SQLite driver
//! stand behind small trusted wrappers.

pub mod files;
pub mod schema;
pub mod sqlite;
pub mod store;
pub mod values;
