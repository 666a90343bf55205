//! The database calls that this library makes. Verus takes the contracts in
//! this file on trust: none of them is proved.

use vstd::prelude::*;

verus! {

/// `rusqlite::Connection`, an open database. Opaque to the verifier.
#[verifier::external_type_specification]
#[verifier::external_body]
pub struct ExConnection(rusqlite::Connection);

/// `rusqlite::Statement`, a prepared statement. Opaque to the verifier.
#[verifier::external_type_specification]
#[verifier::external_body]
pub struct ExStatement<'conn>(rusqlite::Statement<'conn>);

/// `rusqlite::Rows`, the cursor over the rows of a running query. Opaque to
/// the verifier.
#[verifier::external_type_specification]
#[verifier::external_body]
pub struct ExRows<'stmt>(rusqlite::Rows<'stmt>);

/// `rusqlite::Row`, the row that a cursor stands on. Opaque to the verifier.
#[verifier::external_type_specification]
#[verifier::external_body]
pub struct ExRow<'stmt>(rusqlite::Row<'stmt>);

/// `rusqlite::Transaction`, an open transaction, rolled back when dropped
/// uncommitted. Opaque to the verifier.
#[verifier::external_type_specification]
#[verifier::external_body]
pub struct ExTransaction<'conn>(rusqlite::Transaction<'conn>);

/// `rusqlite::Error`, a failure reported by the database. Opaque to the
/// verifier.
#[verifier::external_type_specification]
#[verifier::external_body]
pub struct ExError(rusqlite::Error);

/// Calls `rusqlite::Connection::prepare`. Nothing is claimed of the outcome:
/// it depends on the database behind the connection.
#[verifier::external_body]
pub(crate) fn prepare<'conn>(conn: &'conn rusqlite::Connection, sql: &str) -> Result<
    rusqlite::Statement<'conn>,
    rusqlite::Error,
> {
    conn.prepare(sql)
}

/// Calls `rusqlite::Statement::query` with no parameters. Nothing is claimed
/// of the outcome.
#[verifier::external_body]
pub(crate) fn query<'stmt>(stmt: &'stmt mut rusqlite::Statement<'_>) -> Result<
    rusqlite::Rows<'stmt>,
    rusqlite::Error,
> {
    stmt.query(())
}

/// Calls `rusqlite::Rows::next`. Nothing is claimed of the outcome.
#[verifier::external_body]
pub(crate) fn next_row<'a, 'stmt>(rows: &'a mut rusqlite::Rows<'stmt>) -> Result<
    Option<&'a rusqlite::Row<'stmt>>,
    rusqlite::Error,
> {
    rows.next()
}

/// Calls `rusqlite::Row::get` for the column of the given name, decoded as
/// optional text. Nothing is claimed of the outcome.
#[verifier::external_body]
pub(crate) fn column_text(row: &rusqlite::Row<'_>, name: &str) -> Result<
    Option<String>,
    rusqlite::Error,
> {
    row.get::<&str, Option<String>>(name)
}

/// Calls `rusqlite::Connection::unchecked_transaction`. Nothing is claimed
/// of the outcome.
#[verifier::external_body]
pub(crate) fn begin<'conn>(conn: &'conn rusqlite::Connection) -> Result<
    rusqlite::Transaction<'conn>,
    rusqlite::Error,
> {
    conn.unchecked_transaction()
}

/// Calls `rusqlite::Connection::execute` on the connection of an open
/// transaction, with parameters bound by name. Nothing is claimed of the
/// outcome.
#[verifier::external_body]
pub(crate) fn execute(
    tx: &rusqlite::Transaction<'_>,
    sql: &str,
    params: &[(&str, &Option<String>)],
) -> Result<usize, rusqlite::Error> {
    tx.execute(sql, params)
}

/// Calls `rusqlite::Transaction::commit`. Nothing is claimed of the outcome.
#[verifier::external_body]
pub(crate) fn commit(tx: rusqlite::Transaction<'_>) -> Result<(), rusqlite::Error> {
    tx.commit()
}

} // verus!
