//! Loading the record from the table `config` of a database, and replacing
//! the row that the table holds.

use vstd::prelude::*;
use crate::config::{Configuration, ConfigurationView, text_of};
use crate::error::{CallSite, ConfigError};
use crate::sqlite::{begin, column_text, commit, execute, next_row, prepare, query};

verus! {

/// The query for the rows of the table.
pub const SELECT_ROWS: &'static str = "SELECT * FROM config";

/// The statement that deletes every row of the table.
pub const DELETE_ROWS: &'static str = "DELETE FROM config";

/// The statement that inserts one row, with a parameter for each column under
/// the column's name.
pub const INSERT_ROW: &'static str =
    "INSERT INTO config (client_id, client_secret, input_files, drive_id) VALUES (:client_id, :client_secret, :input_files, :drive_id)";

/// The columns of a row of the table, in the order `client_id`,
/// `client_secret`, `input_files`, `drive_id`. A NULL column is `None`.
pub type Columns = (Option<String>, Option<String>, Option<String>, Option<String>);

/// The model of the columns of a row.
pub type ColumnsView = (Option<Seq<char>>, Option<Seq<char>>, Option<Seq<char>>, Option<Seq<char>>);

/// The model of the outcome of a query for the stored row.
pub open spec fn row_view(row: Option<Columns>) -> Option<ColumnsView> {
    match row {
        Some(columns) => Some(
            (text_of(columns.0), text_of(columns.1), text_of(columns.2), text_of(columns.3)),
        ),
        None => None,
    }
}

impl ConfigurationView {
    /// The columns of the row that stands for the record.
    pub open spec fn columns(self) -> ColumnsView {
        (self.client_id, self.client_secret, self.input_files, self.drive_id)
    }

    /// The record that the outcome of a query stands for: the record of the
    /// row's columns, or the empty record where the table holds no row.
    pub open spec fn from_row(row: Option<ColumnsView>) -> ConfigurationView {
        match row {
            Some(columns) => ConfigurationView {
                client_id: columns.0,
                client_secret: columns.1,
                input_files: columns.2,
                drive_id: columns.3,
            },
            None => ConfigurationView::empty(),
        }
    }
}

impl Configuration {
    /// The record that the outcome of a query stands for: the record of the
    /// row's columns, or the empty record where the table holds no row. An
    /// empty table is no failure.
    pub fn from_row(row: Option<Columns>) -> (c: Configuration)
        ensures
            c@ == ConfigurationView::from_row(row_view(row)),
    {
        match row {
            Some(columns) => {
                let (client_id, client_secret, input_files, drive_id) = columns;
                Configuration { client_id, client_secret, input_files, drive_id }
            },
            None => Configuration::empty(),
        }
    }

    /// The parameters that the insertion of this record binds: each setting
    /// under the name of its column, in the order of the columns.
    pub fn bindings(&self) -> (params: [(&'static str, &Option<String>); 4])
        ensures
            params[0].0@ == ":client_id"@,
            params[1].0@ == ":client_secret"@,
            params[2].0@ == ":input_files"@,
            params[3].0@ == ":drive_id"@,
            (
                text_of(*params[0].1),
                text_of(*params[1].1),
                text_of(*params[2].1),
                text_of(*params[3].1),
            ) == self@.columns(),
    {
        [
            (":client_id", &self.client_id),
            (":client_secret", &self.client_secret),
            (":input_files", &self.input_files),
            (":drive_id", &self.drive_id),
        ]
    }

    /// Reads the first row of the table `config`, if it has one.
    fn read_row(conn: &rusqlite::Connection) -> (res: Result<Option<Columns>, ConfigError>)
        ensures
            res matches Err(e) ==> e.site().is_load(),
    {
        let mut stmt = ConfigError::at(prepare(conn, SELECT_ROWS), CallSite::Prepare)?;
        let mut rows = ConfigError::at(query(&mut stmt), CallSite::Query)?;
        match ConfigError::at(next_row(&mut rows), CallSite::NextRow)? {
            Some(row) => {
                let client_id = ConfigError::at(column_text(row, "client_id"), CallSite::ClientId)?;
                let client_secret = ConfigError::at(
                    column_text(row, "client_secret"),
                    CallSite::ClientSecret,
                )?;
                let input_files = ConfigError::at(
                    column_text(row, "input_files"),
                    CallSite::InputFiles,
                )?;
                let drive_id = ConfigError::at(column_text(row, "drive_id"), CallSite::DriveId)?;
                Ok(Some((client_id, client_secret, input_files, drive_id)))
            },
            None => Ok(None),
        }
    }

    /// Loads the record from the table `config` of the database.
    ///
    /// Where the table holds a row, the record has the columns of its first
    /// row; where it holds none, the record is empty, which is no failure. A
    /// failure of the database is returned with the operation that failed;
    /// nothing is retried.
    ///
    /// What comes back depends on the database, so the contract states only
    /// what holds of every outcome. [`Configuration::from_row`] states the
    /// record for each outcome of the query.
    pub fn get_config(conn: &rusqlite::Connection) -> (res: Result<Configuration, ConfigError>)
        ensures
            res matches Err(e) ==> e.site().is_load(),
    {
        let row = Configuration::read_row(conn)?;
        Ok(Configuration::from_row(row))
    }

    /// Replaces the rows of the table `config` by the one row of this record.
    ///
    /// Inside one transaction, every row of the table is deleted and one row
    /// with the four settings is inserted; an absent setting is stored as
    /// NULL. Where a step fails, the transaction is dropped uncommitted, and
    /// the failure is returned with the operation that failed; nothing is
    /// retried.
    ///
    /// What the database does with the statements is not known to the
    /// verifier, so the contract states only what holds of every outcome.
    /// [`Configuration::bindings`] states what the insertion is handed.
    pub fn write(&self, conn: &rusqlite::Connection) -> (res: Result<(), ConfigError>)
        ensures
            res matches Err(e) ==> e.site().is_store(),
    {
        let tx = ConfigError::at(begin(conn), CallSite::Begin)?;
        let none: [(&'static str, &Option<String>); 0] = [];
        ConfigError::at(execute(&tx, DELETE_ROWS, none.as_slice()), CallSite::Delete)?;
        let params = self.bindings();
        ConfigError::at(execute(&tx, INSERT_ROW, params.as_slice()), CallSite::Insert)?;
        ConfigError::at(commit(tx), CallSite::Commit)
    }
}

} // verus!
