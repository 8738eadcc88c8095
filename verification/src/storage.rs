//! A store that writes to any of the schema's tables through the statement
//! text of `tables`.

use vstd::prelude::*;
use crate::engine;
use crate::error::{box_error, report, ErrorKind, Stage, StoreError};
use crate::statement::{Param, ParamView, Statement, StatementView};
use crate::tables::{
    build_statement_text, lemma_statement_text_placeholders, statement_text, Action, Tables,
};

verus! {

/// A connection to one database file, held for the handle's lifetime and
/// released when the handle goes out of scope.
pub struct Storage {
    conn: rusqlite::Connection,
}

/// The statement that writes `first` and `second` to the two columns of a
/// table: the text of the table's insert, with both values bound as text.
pub fn insert_statement(table: Tables, first: &str, second: &str) -> (s: Statement)
    ensures
        s@ == (StatementView {
            sql: statement_text(Action::Insert(table)),
            params: seq![ParamView::Text(first@), ParamView::Text(second@)],
        }),
        s@.well_formed(),
{
    let mut params: Vec<Param> = Vec::new();
    params.push(Param::text(first));
    params.push(Param::text(second));
    let s = Statement::new(build_statement_text(Action::Insert(table)), params);
    assert(s@.params =~= seq![ParamView::Text(first@), ParamView::Text(second@)]);
    proof {
        lemma_statement_text_placeholders(Action::Insert(table));
    }
    s
}

impl Storage {
    /// Opens the database at `db_path`.
    ///
    /// Whether the file can be opened is for the engine to say; a failure
    /// holds what the engine said and is always of class `Connection`.
    pub fn new(db_path: &str) -> (res: Result<Storage, Box<StoreError>>)
        ensures
            res matches Err(e) ==> e.reports(Stage::Open),
    {
        let answer = match engine::open(db_path) {
            Ok(conn) => Ok(Storage { conn }),
            Err(cause) => Err(engine::describe(&cause)),
        };
        report(Stage::Open, answer)
    }

    /// Applies the schema as one batch.
    ///
    /// `schema` is what reading the schema file gave: its text, or the reason
    /// why it could not be read. An unread schema is a `SchemaLoad` error with
    /// that reason and nothing is sent to the engine; a batch that the engine
    /// refuses is a `SchemaApply` error, and what ran before the failing
    /// statement stays applied.
    pub fn init(&self, schema: Result<String, String>) -> (res: Result<(), Box<StoreError>>)
        ensures
            schema matches Err(reason) ==> (res matches Err(e) && e.kind == ErrorKind::SchemaLoad
                && e.message@ == reason@ && e.cause is None),
            schema is Ok ==> (res matches Err(e) ==> e.reports(Stage::Schema)),
    {
        match schema {
            Ok(text) => {
                let answer = match engine::execute_batch(&self.conn, text.as_str()) {
                    Ok(()) => Ok(()),
                    Err(cause) => Err(engine::describe(&cause)),
                };
                report(Stage::Schema, answer)
            },
            Err(reason) => Err(box_error(Some(StoreError::schema_load(reason)))),
        }
    }

    /// Writes the first two of `values` to the two columns of `table`. Gives
    /// the number of rows that the engine counts as changed.
    pub fn insert(&self, table: Tables, values: Vec<String>) -> (res: Result<
        usize,
        Box<StoreError>,
    >)
        requires
            values.len() >= 2,
        ensures
            res matches Err(e) ==> e.reports(Stage::Write),
    {
        let stmt = insert_statement(table, values[0].as_str(), values[1].as_str());
        let answer = match engine::execute(&self.conn, &stmt) {
            Ok(count) => Ok(count),
            Err(cause) => Err(engine::describe(&cause)),
        };
        report(Stage::Write, answer)
    }

    /// The text of the statement for a verb on a table.
    pub fn query_string(&self, action: Action) -> (query: String)
        ensures
            query@ == statement_text(action),
    {
        build_statement_text(action)
    }
}

} // verus!
