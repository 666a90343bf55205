//! A persisted configuration record for a file synchronisation tool.
//!
//! The record holds four optional text settings: the client credentials of
//! the identity provider, the pattern of the files to synchronise, and the
//! identifier of a shared drive. Absence of a setting is a state of its own,
//! distinct from the empty string.
//!
//! - [`config`] holds the record, its model, and the rules for emptiness,
//!   completeness and merging, each with an exact contract.
//! - [`laws`] states and proves what holds of every record.
//! - [`storage`] loads the record from a SQLite table and replaces the row
//!   that the table holds. What the database answers is outside the reach of
//!   the verifier: the contracts there state what holds of every answer, and
//!   the functions that work on an answer are exact.
//! - [`error`] holds the failure that the storage functions report.
//! - [`sqlite`] holds the calls into `rusqlite`, whose contracts are taken on
//!   trust.

pub mod config;
pub mod error;
pub mod laws;
pub mod sqlite;
pub mod storage;

pub use config::{Configuration, ConfigurationView};
pub use error::{CallSite, ConfigError};
pub use storage::{Columns, DELETE_ROWS, INSERT_ROW, SELECT_ROWS};
