//! The calls into the storage engine. Nothing in this file is proved: each
//! function hands a statement to `rusqlite` and gives back what came out.
//! What the engine answers depends on the database at the time of the call,
//! so no contract here promises an outcome. The callers owe each call a
//! statement that binds one value to every placeholder.

use vstd::prelude::*;
use crate::error::{EngineFailure, FailureKind};
use crate::record::Item;
use crate::statement::{Param, Statement};

verus! {

/// `rusqlite::Connection`: an open connection. It is carried through and
/// never looked into.
#[verifier::external_type_specification]
#[verifier::external_body]
pub struct ExConnection(rusqlite::Connection);

/// `rusqlite::Error`: the driver's error. It is looked into by `describe`
/// alone.
#[verifier::external_type_specification]
#[verifier::external_body]
pub struct ExEngineError(rusqlite::Error);

/// `rusqlite::Connection::open`: opens the database at `path`, creating the
/// file where there is none. Nothing is claimed of the outcome.
#[verifier::external_body]
pub(crate) fn open(path: &str) -> (res: Result<rusqlite::Connection, rusqlite::Error>) {
    rusqlite::Connection::open(path)
}

/// `rusqlite::Connection::execute_batch`: runs the statements of `sql` one
/// after another and stops at the first that fails. Nothing is claimed of
/// the outcome.
#[verifier::external_body]
pub(crate) fn execute_batch(conn: &rusqlite::Connection, sql: &str) -> (res: Result<
    (),
    rusqlite::Error,
>) {
    conn.execute_batch(sql)
}

/// `rusqlite::Connection::execute`: runs the statement with its values bound
/// to the placeholders in order (an integer as INTEGER, a text as TEXT,
/// `Null` as NULL) and gives the number of rows that the engine counts as
/// changed. Nothing is claimed of the outcome.
#[verifier::external_body]
pub(crate) fn execute(conn: &rusqlite::Connection, stmt: &Statement) -> (res: Result<
    usize,
    rusqlite::Error,
>)
    requires
        stmt@.well_formed(),
{
    let values = stmt.params.iter().map(|p| match p {
        Param::Int(i) => rusqlite::types::Value::from(*i),
        Param::Text(s) => rusqlite::types::Value::from(s.clone()),
        Param::Null => rusqlite::types::Value::Null,
    });
    conn.execute(&stmt.sql, rusqlite::params_from_iter(values))
}

/// `rusqlite::Connection::query_row`, reading the row with `Row::get` as an
/// id, a key and an optional value: the first row of the answer, or the
/// driver's error where there is no row. The values are bound as in
/// `execute`. Nothing is claimed of the outcome.
#[verifier::external_body]
pub(crate) fn query_item(conn: &rusqlite::Connection, stmt: &Statement) -> (res: Result<
    Item,
    rusqlite::Error,
>)
    requires
        stmt@.well_formed(),
{
    let values = stmt.params.iter().map(|p| match p {
        Param::Int(i) => rusqlite::types::Value::from(*i),
        Param::Text(s) => rusqlite::types::Value::from(s.clone()),
        Param::Null => rusqlite::types::Value::Null,
    });
    conn.query_row(&stmt.sql, rusqlite::params_from_iter(values), |row| {
        Ok(Item { id: row.get(0)?, var: row.get(1)?, val: row.get(2)? })
    })
}

/// `rusqlite::Connection::query_row`, reading the first column of the row
/// with `Row::get` as a truth value. The values are bound as in `execute`.
/// Nothing is claimed of the outcome.
#[verifier::external_body]
pub(crate) fn query_flag(conn: &rusqlite::Connection, stmt: &Statement) -> (res: Result<
    bool,
    rusqlite::Error,
>)
    requires
        stmt@.well_formed(),
{
    let values = stmt.params.iter().map(|p| match p {
        Param::Int(i) => rusqlite::types::Value::from(*i),
        Param::Text(s) => rusqlite::types::Value::from(s.clone()),
        Param::Null => rusqlite::types::Value::Null,
    });
    conn.query_row(&stmt.sql, rusqlite::params_from_iter(values), |row| row.get(0))
}

/// `rusqlite::Connection::prepare` and `rusqlite::Statement::query_map`,
/// reading each row as `query_item` does: the rows of the answer in the
/// order in which the engine gives them, each read or failed on its own.
/// Nothing is claimed of the outcome.
#[verifier::external_body]
pub(crate) fn query_items(conn: &rusqlite::Connection, stmt: &Statement) -> (res: Result<
    Vec<Result<Item, rusqlite::Error>>,
    rusqlite::Error,
>)
    requires
        stmt@.well_formed(),
{
    let values = stmt.params.iter().map(|p| match p {
        Param::Int(i) => rusqlite::types::Value::from(*i),
        Param::Text(s) => rusqlite::types::Value::from(s.clone()),
        Param::Null => rusqlite::types::Value::Null,
    });
    let mut prepared = conn.prepare(&stmt.sql)?;
    let rows = prepared.query_map(rusqlite::params_from_iter(values), |row| {
        Ok(Item { id: row.get(0)?, var: row.get(1)?, val: row.get(2)? })
    })?;
    Ok(rows.collect())
}

/// Tells the variants of `rusqlite::Error` apart: a query without rows, a
/// refusal of the engine with its extended result code, or anything else;
/// the message is the error's own text. Nothing is claimed of the outcome.
#[verifier::external_body]
pub(crate) fn describe(error: &rusqlite::Error) -> (failure: EngineFailure) {
    let kind = match error {
        rusqlite::Error::QueryReturnedNoRows => FailureKind::NoRows,
        rusqlite::Error::SqliteFailure(cause, _) => FailureKind::Engine {
            code: cause.extended_code,
        },
        _ => FailureKind::Other,
    };
    EngineFailure { kind, message: error.to_string() }
}

} // verus!
