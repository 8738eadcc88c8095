//! The record accessors over `ShellCommanders`.

use vstd::prelude::*;
use crate::engine;
use crate::error::{
    box_error, error_kind, report, EngineFailure, ErrorKind, Stage, StoreError,
};
use crate::record::Item;
use crate::statement::Statement;

verus! {

/// Gives each row that the engine could not read the plain account of its
/// failure, and leaves the rows that it read as they are.
pub(crate) fn describe_rows(rows: Vec<Result<Item, rusqlite::Error>>) -> (out: Vec<
    Result<Item, EngineFailure>,
>)
    ensures
        out.len() == rows.len(),
        forall|i: int|
            0 <= i < rows.len() ==> (#[trigger] rows[i] matches Ok(item) ==> out[i] == Ok::<
                Item,
                EngineFailure,
            >(item)),
        forall|i: int| 0 <= i < rows.len() ==> (#[trigger] rows[i] is Err ==> out[i] is Err),
{
    let mut out: Vec<Result<Item, EngineFailure>> = Vec::new();
    let ghost all = rows@;
    for row in it: rows
        invariant
            it.seq() == all,
            out.len() == it.index(),
            forall|i: int|
                0 <= i < out.len() ==> (#[trigger] all[i] matches Ok(item) ==> out[i] == Ok::<
                    Item,
                    EngineFailure,
                >(item)),
            forall|i: int| 0 <= i < out.len() ==> (#[trigger] all[i] is Err ==> out[i] is Err),
    {
        match row {
            Ok(item) => out.push(Ok(item)),
            Err(cause) => out.push(Err(engine::describe(&cause))),
        }
    }
    out
}

/// Whether row `k` is the first that the engine could not read.
pub open spec fn fails_first_at(rows: Seq<Result<Item, EngineFailure>>, k: int) -> bool {
    &&& 0 <= k < rows.len()
    &&& rows[k] is Err
    &&& forall|j: int| 0 <= j < k ==> (#[trigger] rows[j]) is Ok
}

/// Gathers the rows of a listing. Where every row was read, the result holds
/// them all, in the order given; otherwise it is the error of the first row
/// that was not.
pub fn collect_items(rows: Vec<Result<Item, EngineFailure>>) -> (res: Result<
    Vec<Item>,
    Box<StoreError>,
>)
    ensures
        match res {
            Ok(items) => {
                &&& items.len() == rows.len()
                &&& forall|i: int|
                    0 <= i < rows.len() ==> #[trigger] rows[i] == Ok::<Item, EngineFailure>(
                        items[i],
                    )
            },
            Err(e) => exists|k: int|
                {
                    &&& #[trigger] fails_first_at(rows@, k)
                    &&& e.kind == error_kind(Stage::Read, rows[k]->Err_0.kind)
                    &&& e.cause == Some(rows[k]->Err_0.kind)
                    &&& e.message@ == rows[k]->Err_0.message@
                },
        },
{
    let mut items: Vec<Item> = Vec::new();
    let ghost all = rows@;
    for row in it: rows
        invariant
            it.seq() == all,
            items.len() == it.index(),
            forall|i: int|
                0 <= i < items.len() ==> #[trigger] all[i] == Ok::<Item, EngineFailure>(items[i]),
    {
        match row {
            Ok(item) => items.push(item),
            Err(failure) => {
                assert(fails_first_at(all, it.index() as int));
                return report::<Vec<Item>>(Stage::Read, Err(failure));
            },
        }
    }
    Ok(items)
}

/// A connection to one database file, held for the handle's lifetime and
/// released when the handle goes out of scope.
pub struct Database {
    conn: rusqlite::Connection,
}

impl Database {
    /// Opens the database at `db_path`.
    ///
    /// Whether the file can be opened is for the engine to say; a failure
    /// holds what the engine said and is always of class `Connection`.
    pub fn new(db_path: &str) -> (res: Result<Database, Box<StoreError>>)
        ensures
            res matches Err(e) ==> e.reports(Stage::Open),
    {
        let answer = match engine::open(db_path) {
            Ok(conn) => Ok(Database { conn }),
            Err(cause) => Err(engine::describe(&cause)),
        };
        report(Stage::Open, answer)
    }

    /// Applies the schema as one batch.
    ///
    /// `schema` is what reading the schema file gave: its text, or the reason
    /// why it could not be read. An unread schema is a `SchemaLoad` error with
    /// that reason and nothing is sent to the engine; a batch that the engine
    /// refuses is a `SchemaApply` error, and what ran before the failing
    /// statement stays applied.
    pub fn create_table(&self, schema: Result<String, String>) -> (res: Result<
        (),
        Box<StoreError>,
    >)
        ensures
            schema matches Err(reason) ==> (res matches Err(e) && e.kind == ErrorKind::SchemaLoad
                && e.message@ == reason@ && e.cause is None),
            schema is Ok ==> (res matches Err(e) ==> e.reports(Stage::Schema)),
    {
        match schema {
            Ok(text) => {
                let answer = match engine::execute_batch(&self.conn, text.as_str()) {
                    Ok(()) => Ok(()),
                    Err(cause) => Err(engine::describe(&cause)),
                };
                report(Stage::Schema, answer)
            },
            Err(reason) => Err(box_error(Some(StoreError::schema_load(reason)))),
        }
    }

    /// Inserts a row for `var`; where the key is taken, nothing changes. Gives
    /// the number of rows that the engine counts as changed.
    pub fn insert_item(&self, var: &str, val: Option<&str>) -> (res: Result<
        usize,
        Box<StoreError>,
    >)
        ensures
            res matches Err(e) ==> e.reports(Stage::Write),
    {
        let stmt = Statement::insert_item(var, val);
        let answer = match engine::execute(&self.conn, &stmt) {
            Ok(count) => Ok(count),
            Err(cause) => Err(engine::describe(&cause)),
        };
        report(Stage::Write, answer)
    }

    /// Inserts a row for `var`; where the key is taken, the value under it is
    /// replaced. Gives the number of rows that the engine counts as changed.
    pub fn insert_or_update_item(&self, var: &str, val: Option<&str>) -> (res: Result<
        usize,
        Box<StoreError>,
    >)
        ensures
            res matches Err(e) ==> e.reports(Stage::Write),
    {
        let stmt = Statement::insert_or_update_item(var, val);
        let answer = match engine::execute(&self.conn, &stmt) {
            Ok(count) => Ok(count),
            Err(cause) => Err(engine::describe(&cause)),
        };
        report(Stage::Write, answer)
    }

    /// Looks the record with the given id up. A failure holds what the
    /// engine said and is of class `NotFound` exactly when the engine gave
    /// no row; every other failure is of class `Query`.
    pub fn get_item_by_id(&self, id: i32) -> (res: Result<Item, Box<StoreError>>)
        ensures
            res matches Err(e) ==> e.reports(Stage::Lookup),
    {
        let stmt = Statement::get_item_by_id(id);
        let answer = match engine::query_item(&self.conn, &stmt) {
            Ok(item) => Ok(item),
            Err(cause) => Err(engine::describe(&cause)),
        };
        report(Stage::Lookup, answer)
    }

    /// Looks the record with the given key up. A failure holds what the
    /// engine said and is of class `NotFound` exactly when the engine gave
    /// no row; every other failure is of class `Query`.
    pub fn get_item_by_var(&self, var: &str) -> (res: Result<Item, Box<StoreError>>)
        ensures
            res matches Err(e) ==> e.reports(Stage::Lookup),
    {
        let stmt = Statement::get_item_by_var(var);
        let answer = match engine::query_item(&self.conn, &stmt) {
            Ok(item) => Ok(item),
            Err(cause) => Err(engine::describe(&cause)),
        };
        report(Stage::Lookup, answer)
    }

    /// Lists every record, in the order in which the engine gives them.
    pub fn get_all_items(&self) -> (res: Result<Vec<Item>, Box<StoreError>>)
        ensures
            res matches Err(e) ==> e.reports(Stage::Read),
    {
        let stmt = Statement::get_all_items();
        match engine::query_items(&self.conn, &stmt) {
            Ok(rows) => collect_items(describe_rows(rows)),
            Err(cause) => report(Stage::Read, Err(engine::describe(&cause))),
        }
    }

    /// Overwrites key and value of the row with the given id. Gives the
    /// number of rows changed; none changed is no error. A failure is of
    /// class `Constraint` exactly when the engine refused the write with a
    /// constraint's code, as for a key that another row has.
    pub fn update_item(&self, id: i32, var: &str, val: Option<&str>) -> (res: Result<
        usize,
        Box<StoreError>,
    >)
        ensures
            res matches Err(e) ==> e.reports(Stage::Write),
    {
        let stmt = Statement::update_item(id, var, val);
        let answer = match engine::execute(&self.conn, &stmt) {
            Ok(count) => Ok(count),
            Err(cause) => Err(engine::describe(&cause)),
        };
        report(Stage::Write, answer)
    }

    /// Overwrites the value of the row with the given key. Gives the number
    /// of rows changed; none changed is no error.
    pub fn update_item_by_var(&self, var: &str, val: Option<&str>) -> (res: Result<
        usize,
        Box<StoreError>,
    >)
        ensures
            res matches Err(e) ==> e.reports(Stage::Write),
    {
        let stmt = Statement::update_item_by_var(var, val);
        let answer = match engine::execute(&self.conn, &stmt) {
            Ok(count) => Ok(count),
            Err(cause) => Err(engine::describe(&cause)),
        };
        report(Stage::Write, answer)
    }

    /// Removes the row with the given id. Gives the number of rows removed.
    pub fn delete_item(&self, id: i32) -> (res: Result<usize, Box<StoreError>>)
        ensures
            res matches Err(e) ==> e.reports(Stage::Write),
    {
        let stmt = Statement::delete_item(id);
        let answer = match engine::execute(&self.conn, &stmt) {
            Ok(count) => Ok(count),
            Err(cause) => Err(engine::describe(&cause)),
        };
        report(Stage::Write, answer)
    }

    /// Whether a row with the given id is there.
    pub fn item_exists(&self, id: i32) -> (res: Result<bool, Box<StoreError>>)
        ensures
            res matches Err(e) ==> e.reports(Stage::Read),
    {
        let stmt = Statement::item_exists(id);
        let answer = match engine::query_flag(&self.conn, &stmt) {
            Ok(found) => Ok(found),
            Err(cause) => Err(engine::describe(&cause)),
        };
        report(Stage::Read, answer)
    }

    /// Whether a row with the given key is there.
    pub fn item_exists_by_var(&self, var: &str) -> (res: Result<bool, Box<StoreError>>)
        ensures
            res matches Err(e) ==> e.reports(Stage::Read),
    {
        let stmt = Statement::item_exists_by_var(var);
        let answer = match engine::query_flag(&self.conn, &stmt) {
            Ok(found) => Ok(found),
            Err(cause) => Err(engine::describe(&cause)),
        };
        report(Stage::Read, answer)
    }

    /// Has the engine rewrite the database file to reclaim the space of
    /// removed and changed rows.
    pub fn update_database_file(&self) -> (res: Result<usize, Box<StoreError>>)
        ensures
            res matches Err(e) ==> e.reports(Stage::Write),
    {
        let stmt = Statement::compact();
        let answer = match engine::execute(&self.conn, &stmt) {
            Ok(count) => Ok(count),
            Err(cause) => Err(engine::describe(&cause)),
        };
        report(Stage::Write, answer)
    }
}

} // verus!
