//! The error that the storage functions report.

use vstd::prelude::*;

verus! {

/// The storage operation during which a failure arose.
#[derive(Debug, Clone, Copy, PartialEq, Eq, Structural)]
pub enum CallSite {
    /// Acquiring the connection. The functions of this library are handed an
    /// open connection and never report this site; it is for the caller that
    /// opens the database.
    Connect,
    /// Preparing the query for the stored row.
    Prepare,
    /// Starting the query.
    Query,
    /// Stepping to the first row of the result.
    NextRow,
    /// Decoding the column `client_id` of the row.
    ClientId,
    /// Decoding the column `client_secret` of the row.
    ClientSecret,
    /// Decoding the column `input_files` of the row.
    InputFiles,
    /// Decoding the column `drive_id` of the row.
    DriveId,
    /// Opening the transaction that encloses a replacement.
    Begin,
    /// Deleting the rows of the table.
    Delete,
    /// Inserting the new row.
    Insert,
    /// Committing the transaction.
    Commit,
}

impl CallSite {
    /// Whether the operation belongs to loading the record.
    pub open spec fn is_load(self) -> bool {
        self is Prepare || self is Query || self is NextRow || self is ClientId
            || self is ClientSecret || self is InputFiles || self is DriveId
    }

    /// Whether the operation belongs to replacing the record.
    pub open spec fn is_store(self) -> bool {
        self is Begin || self is Delete || self is Insert || self is Commit
    }
}

/// What goes wrong in this library.
#[derive(Debug)]
pub enum ConfigError {
    /// The database refused or failed an operation.
    DatabaseError {
        /// The failure as the database reported it.
        cause: rusqlite::Error,
        /// The operation that failed.
        site: CallSite,
    },
}

impl ConfigError {
    /// The operation that failed.
    pub open spec fn spec_site(&self) -> CallSite {
        match *self {
            ConfigError::DatabaseError { site, .. } => site,
        }
    }

    /// The operation that failed.
    #[verifier::when_used_as_spec(spec_site)]
    pub fn site(&self) -> (site: CallSite)
        ensures
            site == self.spec_site(),
    {
        match self {
            ConfigError::DatabaseError { site, .. } => *site,
        }
    }

    /// Attaches the call site to the outcome of a database call: a success is
    /// handed on as it is, and a failure becomes a [`ConfigError`] that holds
    /// the failure and the site.
    pub fn at<T>(outcome: Result<T, rusqlite::Error>, site: CallSite) -> (res: Result<
        T,
        ConfigError,
    >)
        ensures
            res == match outcome {
                Ok(value) => Ok::<T, ConfigError>(value),
                Err(cause) => Err(ConfigError::DatabaseError { cause, site }),
            },
    {
        match outcome {
            Ok(value) => Ok(value),
            Err(cause) => Err(ConfigError::DatabaseError { cause, site }),
        }
    }
}

} // verus!
