//! Parameterized statements: a fixed text with numbered placeholders, and
//! the values bound to them. A value never becomes part of the text.

use vstd::prelude::*;
use crate::tables::{
    lemma_placeholder_count_concat, placeholder_count, statement_text, Action, Tables,
};

verus! {

/// Inserts a row; a taken key leaves the table as it is.
pub const INSERT_ITEM_SQL: &'static str =
    "INSERT OR IGNORE INTO ShellCommanders (VAR, VAL) VALUES (?1, ?2)";

/// Inserts a row; a taken key has its value replaced.
pub const INSERT_OR_UPDATE_ITEM_SQL: &'static str =
    "INSERT INTO ShellCommanders (VAR, VAL) VALUES (?1, ?2) ON CONFLICT(VAR) DO UPDATE SET VAL = excluded.VAL";

/// Selects the row with an id.
pub const GET_ITEM_BY_ID_SQL: &'static str =
    "SELECT ID, VAR, VAL FROM ShellCommanders WHERE ID = ?1";

/// Selects the row with a key.
pub const GET_ITEM_BY_VAR_SQL: &'static str =
    "SELECT ID, VAR, VAL FROM ShellCommanders WHERE VAR = ?1";

/// Selects every row, with no order asked for.
pub const GET_ALL_ITEMS_SQL: &'static str = "SELECT ID, VAR, VAL FROM ShellCommanders";

/// Overwrites key and value of the row with an id.
pub const UPDATE_ITEM_SQL: &'static str =
    "UPDATE ShellCommanders SET VAR = ?1, VAL = ?2 WHERE ID = ?3";

/// Overwrites the value of the row with a key.
pub const UPDATE_ITEM_BY_VAR_SQL: &'static str =
    "UPDATE ShellCommanders SET VAL = ?1 WHERE VAR = ?2";

/// Removes the row with an id.
pub const DELETE_ITEM_SQL: &'static str = "DELETE FROM ShellCommanders WHERE ID = ?1";

/// Asks whether a row with an id is there.
pub const ITEM_EXISTS_SQL: &'static str =
    "SELECT EXISTS (SELECT 1 FROM ShellCommanders WHERE ID = ?1)";

/// Asks whether a row with a key is there.
pub const ITEM_EXISTS_BY_VAR_SQL: &'static str =
    "SELECT EXISTS (SELECT 1 FROM ShellCommanders WHERE VAR = ?1)";

/// Rewrites the database file to reclaim unused space.
pub const COMPACT_SQL: &'static str = "VACUUM";

/// A value bound to a placeholder.
#[derive(Debug)]
pub enum Param {
    Int(i32),
    Text(String),
    Null,
}

/// What a bound value is.
pub enum ParamView {
    Int(i32),
    Text(Seq<char>),
    Null,
}

impl View for Param {
    type V = ParamView;

    open spec fn view(&self) -> ParamView {
        match self {
            Param::Int(i) => ParamView::Int(*i),
            Param::Text(s) => ParamView::Text(s@),
            Param::Null => ParamView::Null,
        }
    }
}

/// A statement ready to be handed to the storage engine.
#[derive(Debug)]
pub struct Statement {
    pub sql: String,
    pub params: Vec<Param>,
}

/// What a statement is: its text, and the values for placeholders 1, 2, ...
/// in that order.
pub struct StatementView {
    pub sql: Seq<char>,
    pub params: Seq<ParamView>,
}

impl StatementView {
    /// Whether the statement binds exactly one value to each placeholder of
    /// its text.
    pub open spec fn well_formed(self) -> bool {
        self.params.len() == placeholder_count(self.sql)
    }
}

impl View for Statement {
    type V = StatementView;

    open spec fn view(&self) -> StatementView {
        StatementView { sql: self.sql@, params: self.params@.map_values(|p: Param| p@) }
    }
}

/// The bound value for an optional text: the text, or SQL `NULL`.
pub open spec fn nullable(val: Option<&str>) -> ParamView {
    match val {
        Some(s) => ParamView::Text(s@),
        None => ParamView::Null,
    }
}

impl Param {
    /// Binds a text.
    pub fn text(s: &str) -> (p: Param)
        ensures
            p@ == ParamView::Text(s@),
    {
        Param::Text(String::from_str(s))
    }

    /// Binds a text, or SQL `NULL` where there is none.
    pub fn nullable_text(val: Option<&str>) -> (p: Param)
        ensures
            p@ == nullable(val),
    {
        match val {
            Some(s) => Param::Text(String::from_str(s)),
            None => Param::Null,
        }
    }
}

impl Statement {
    /// A statement with the given text and bound values.
    pub fn new(sql: String, params: Vec<Param>) -> (s: Statement)
        ensures
            s.sql == sql,
            s.params == params,
    {
        Statement { sql, params }
    }

    /// Inserts a row for `var`; where the key is taken, nothing changes.
    pub fn insert_item(var: &str, val: Option<&str>) -> (s: Statement)
        ensures
            s@ == (StatementView {
                sql: INSERT_ITEM_SQL@,
                params: seq![ParamView::Text(var@), nullable(val)],
            }),
            s@.well_formed(),
    {
        let mut params: Vec<Param> = Vec::new();
        params.push(Param::text(var));
        params.push(Param::nullable_text(val));
        let s = Statement { sql: String::from_str(INSERT_ITEM_SQL), params };
        assert(s@.params =~= seq![ParamView::Text(var@), nullable(val)]);
        proof {
            lemma_accessor_placeholders();
        }
        s
    }

    /// Inserts a row for `var`; where the key is taken, the value stored
    /// under it is replaced.
    pub fn insert_or_update_item(var: &str, val: Option<&str>) -> (s: Statement)
        ensures
            s@ == (StatementView {
                sql: INSERT_OR_UPDATE_ITEM_SQL@,
                params: seq![ParamView::Text(var@), nullable(val)],
            }),
            s@.well_formed(),
    {
        let mut params: Vec<Param> = Vec::new();
        params.push(Param::text(var));
        params.push(Param::nullable_text(val));
        let s = Statement { sql: String::from_str(INSERT_OR_UPDATE_ITEM_SQL), params };
        assert(s@.params =~= seq![ParamView::Text(var@), nullable(val)]);
        proof {
            lemma_accessor_placeholders();
        }
        s
    }

    /// Selects the row with the given id.
    pub fn get_item_by_id(id: i32) -> (s: Statement)
        ensures
            s@ == (StatementView { sql: GET_ITEM_BY_ID_SQL@, params: seq![ParamView::Int(id)] }),
            s@.well_formed(),
    {
        let mut params: Vec<Param> = Vec::new();
        params.push(Param::Int(id));
        let s = Statement { sql: String::from_str(GET_ITEM_BY_ID_SQL), params };
        assert(s@.params =~= seq![ParamView::Int(id)]);
        proof {
            lemma_accessor_placeholders();
        }
        s
    }

    /// Selects the row with the given key.
    pub fn get_item_by_var(var: &str) -> (s: Statement)
        ensures
            s@ == (StatementView {
                sql: GET_ITEM_BY_VAR_SQL@,
                params: seq![ParamView::Text(var@)],
            }),
            s@.well_formed(),
    {
        let mut params: Vec<Param> = Vec::new();
        params.push(Param::text(var));
        let s = Statement { sql: String::from_str(GET_ITEM_BY_VAR_SQL), params };
        assert(s@.params =~= seq![ParamView::Text(var@)]);
        proof {
            lemma_accessor_placeholders();
        }
        s
    }

    /// Selects every row, in no stated order.
    pub fn get_all_items() -> (s: Statement)
        ensures
            s@ == (StatementView { sql: GET_ALL_ITEMS_SQL@, params: Seq::empty() }),
            s@.well_formed(),
    {
        let s = Statement { sql: String::from_str(GET_ALL_ITEMS_SQL), params: Vec::new() };
        assert(s@.params =~= Seq::empty());
        proof {
            lemma_accessor_placeholders();
        }
        s
    }

    /// Overwrites key and value of the row with the given id.
    pub fn update_item(id: i32, var: &str, val: Option<&str>) -> (s: Statement)
        ensures
            s@ == (StatementView {
                sql: UPDATE_ITEM_SQL@,
                params: seq![ParamView::Text(var@), nullable(val), ParamView::Int(id)],
            }),
            s@.well_formed(),
    {
        let mut params: Vec<Param> = Vec::new();
        params.push(Param::text(var));
        params.push(Param::nullable_text(val));
        params.push(Param::Int(id));
        let s = Statement { sql: String::from_str(UPDATE_ITEM_SQL), params };
        assert(s@.params =~= seq![ParamView::Text(var@), nullable(val), ParamView::Int(id)]);
        proof {
            lemma_accessor_placeholders();
        }
        s
    }

    /// Overwrites the value of the row with the given key.
    pub fn update_item_by_var(var: &str, val: Option<&str>) -> (s: Statement)
        ensures
            s@ == (StatementView {
                sql: UPDATE_ITEM_BY_VAR_SQL@,
                params: seq![nullable(val), ParamView::Text(var@)],
            }),
            s@.well_formed(),
    {
        let mut params: Vec<Param> = Vec::new();
        params.push(Param::nullable_text(val));
        params.push(Param::text(var));
        let s = Statement { sql: String::from_str(UPDATE_ITEM_BY_VAR_SQL), params };
        assert(s@.params =~= seq![nullable(val), ParamView::Text(var@)]);
        proof {
            lemma_accessor_placeholders();
        }
        s
    }

    /// Removes the row with the given id.
    pub fn delete_item(id: i32) -> (s: Statement)
        ensures
            s@ == (StatementView { sql: DELETE_ITEM_SQL@, params: seq![ParamView::Int(id)] }),
            s@.well_formed(),
    {
        let mut params: Vec<Param> = Vec::new();
        params.push(Param::Int(id));
        let s = Statement { sql: String::from_str(DELETE_ITEM_SQL), params };
        assert(s@.params =~= seq![ParamView::Int(id)]);
        proof {
            lemma_accessor_placeholders();
        }
        s
    }

    /// Asks whether a row with the given id is there.
    pub fn item_exists(id: i32) -> (s: Statement)
        ensures
            s@ == (StatementView { sql: ITEM_EXISTS_SQL@, params: seq![ParamView::Int(id)] }),
            s@.well_formed(),
    {
        let mut params: Vec<Param> = Vec::new();
        params.push(Param::Int(id));
        let s = Statement { sql: String::from_str(ITEM_EXISTS_SQL), params };
        assert(s@.params =~= seq![ParamView::Int(id)]);
        proof {
            lemma_accessor_placeholders();
        }
        s
    }

    /// Asks whether a row with the given key is there.
    pub fn item_exists_by_var(var: &str) -> (s: Statement)
        ensures
            s@ == (StatementView {
                sql: ITEM_EXISTS_BY_VAR_SQL@,
                params: seq![ParamView::Text(var@)],
            }),
            s@.well_formed(),
    {
        let mut params: Vec<Param> = Vec::new();
        params.push(Param::text(var));
        let s = Statement { sql: String::from_str(ITEM_EXISTS_BY_VAR_SQL), params };
        assert(s@.params =~= seq![ParamView::Text(var@)]);
        proof {
            lemma_accessor_placeholders();
        }
        s
    }

    /// Has the engine rewrite the database file to reclaim space.
    pub fn compact() -> (s: Statement)
        ensures
            s@ == (StatementView { sql: COMPACT_SQL@, params: Seq::empty() }),
            s@.well_formed(),
    {
        let s = Statement { sql: String::from_str(COMPACT_SQL), params: Vec::new() };
        assert(s@.params =~= Seq::empty());
        proof {
            lemma_accessor_placeholders();
        }
        s
    }
}

/// On `ShellCommanders` the statements for the verbs that address one row
/// are the accessors' own: the delete and the select by id, and the update
/// by key.
pub proof fn lemma_verbs_agree_with_accessors()
    ensures
        statement_text(Action::Delete(Tables::ShellCommanders)) == DELETE_ITEM_SQL@,
        statement_text(Action::Select(Tables::ShellCommanders)) == GET_ITEM_BY_ID_SQL@,
        statement_text(Action::Update(Tables::ShellCommanders)) == UPDATE_ITEM_BY_VAR_SQL@,
{
    reveal_strlit("ShellCommanders");
    reveal_strlit("VAR");
    reveal_strlit("VAL");
    reveal_strlit("DELETE FROM ");
    reveal_strlit(" WHERE ID = ?1");
    reveal_strlit("DELETE FROM ShellCommanders WHERE ID = ?1");
    assert(statement_text(Action::Delete(Tables::ShellCommanders)) =~= DELETE_ITEM_SQL@);
    reveal_strlit("SELECT ID, ");
    reveal_strlit(", ");
    reveal_strlit(" FROM ");
    reveal_strlit("SELECT ID, VAR, VAL FROM ShellCommanders WHERE ID = ?1");
    assert(statement_text(Action::Select(Tables::ShellCommanders)) =~= GET_ITEM_BY_ID_SQL@);
    reveal_strlit("UPDATE ");
    reveal_strlit(" SET ");
    reveal_strlit(" = ?1 WHERE ");
    reveal_strlit(" = ?2");
    reveal_strlit("UPDATE ShellCommanders SET VAL = ?1 WHERE VAR = ?2");
    assert(statement_text(Action::Update(Tables::ShellCommanders)) =~= UPDATE_ITEM_BY_VAR_SQL@);
}

proof fn lemma_count_insert_item()
    ensures
        placeholder_count(INSERT_ITEM_SQL@) == 2,
{
    let first = "INSERT OR IGNORE INTO ShellCommanders"@;
    let second = " (VAR, VAL) VALUES (?1, ?2)"@;
    assert(placeholder_count(first) == 0 && placeholder_count(second) == 2) by {
        reveal_with_fuel(placeholder_count, 38);
        reveal_strlit("INSERT OR IGNORE INTO ShellCommanders");
        reveal_strlit(" (VAR, VAL) VALUES (?1, ?2)");
    }
    lemma_placeholder_count_concat(first, second);
    assert(INSERT_ITEM_SQL@ =~= first + second) by {
        reveal_strlit("INSERT OR IGNORE INTO ShellCommanders (VAR, VAL) VALUES (?1, ?2)");
        reveal_strlit("INSERT OR IGNORE INTO ShellCommanders");
        reveal_strlit(" (VAR, VAL) VALUES (?1, ?2)");
    }
}

proof fn lemma_count_insert_or_update_item()
    ensures
        placeholder_count(INSERT_OR_UPDATE_ITEM_SQL@) == 2,
{
    let first = "INSERT INTO ShellCommanders"@;
    let second = " (VAR, VAL) VALUES (?1, ?2)"@;
    let third = " ON CONFLICT(VAR) DO UPDATE"@;
    let fourth = " SET VAL = excluded.VAL"@;
    assert(placeholder_count(first) == 0 && placeholder_count(second) == 2 && placeholder_count(third) == 0 && placeholder_count(fourth) == 0) by {
        reveal_with_fuel(placeholder_count, 28);
        reveal_strlit("INSERT INTO ShellCommanders");
        reveal_strlit(" (VAR, VAL) VALUES (?1, ?2)");
        reveal_strlit(" ON CONFLICT(VAR) DO UPDATE");
        reveal_strlit(" SET VAL = excluded.VAL");
    }
    lemma_placeholder_count_concat(first, second);
    lemma_placeholder_count_concat(first + second, third);
    lemma_placeholder_count_concat(first + second + third, fourth);
    assert(INSERT_OR_UPDATE_ITEM_SQL@ =~= first + second + third + fourth) by {
        reveal_strlit("INSERT INTO ShellCommanders (VAR, VAL) VALUES (?1, ?2) ON CONFLICT(VAR) DO UPDATE SET VAL = excluded.VAL");
        reveal_strlit("INSERT INTO ShellCommanders");
        reveal_strlit(" (VAR, VAL) VALUES (?1, ?2)");
        reveal_strlit(" ON CONFLICT(VAR) DO UPDATE");
        reveal_strlit(" SET VAL = excluded.VAL");
    }
}

proof fn lemma_count_get_item_by_id()
    ensures
        placeholder_count(GET_ITEM_BY_ID_SQL@) == 1,
{
    let first = "SELECT ID, VAR, VAL FROM ShellCommanders"@;
    let second = " WHERE ID = ?1"@;
    assert(placeholder_count(first) == 0 && placeholder_count(second) == 1) by {
        reveal_with_fuel(placeholder_count, 41);
        reveal_strlit("SELECT ID, VAR, VAL FROM ShellCommanders");
        reveal_strlit(" WHERE ID = ?1");
    }
    lemma_placeholder_count_concat(first, second);
    assert(GET_ITEM_BY_ID_SQL@ =~= first + second) by {
        reveal_strlit("SELECT ID, VAR, VAL FROM ShellCommanders WHERE ID = ?1");
        reveal_strlit("SELECT ID, VAR, VAL FROM ShellCommanders");
        reveal_strlit(" WHERE ID = ?1");
    }
}

proof fn lemma_count_get_item_by_var()
    ensures
        placeholder_count(GET_ITEM_BY_VAR_SQL@) == 1,
{
    let first = "SELECT ID, VAR, VAL FROM ShellCommanders"@;
    let second = " WHERE VAR = ?1"@;
    assert(placeholder_count(first) == 0 && placeholder_count(second) == 1) by {
        reveal_with_fuel(placeholder_count, 41);
        reveal_strlit("SELECT ID, VAR, VAL FROM ShellCommanders");
        reveal_strlit(" WHERE VAR = ?1");
    }
    lemma_placeholder_count_concat(first, second);
    assert(GET_ITEM_BY_VAR_SQL@ =~= first + second) by {
        reveal_strlit("SELECT ID, VAR, VAL FROM ShellCommanders WHERE VAR = ?1");
        reveal_strlit("SELECT ID, VAR, VAL FROM ShellCommanders");
        reveal_strlit(" WHERE VAR = ?1");
    }
}

proof fn lemma_count_get_all_items()
    ensures
        placeholder_count(GET_ALL_ITEMS_SQL@) == 0,
{
    reveal_with_fuel(placeholder_count, 41);
    reveal_strlit("SELECT ID, VAR, VAL FROM ShellCommanders");
}

proof fn lemma_count_update_item()
    ensures
        placeholder_count(UPDATE_ITEM_SQL@) == 3,
{
    let first = "UPDATE ShellCommanders"@;
    let second = " SET VAR = ?1, VAL = ?2"@;
    let third = " WHERE ID = ?3"@;
    assert(placeholder_count(first) == 0 && placeholder_count(second) == 2 && placeholder_count(third) == 1) by {
        reveal_with_fuel(placeholder_count, 24);
        reveal_strlit("UPDATE ShellCommanders");
        reveal_strlit(" SET VAR = ?1, VAL = ?2");
        reveal_strlit(" WHERE ID = ?3");
    }
    lemma_placeholder_count_concat(first, second);
    lemma_placeholder_count_concat(first + second, third);
    assert(UPDATE_ITEM_SQL@ =~= first + second + third) by {
        reveal_strlit("UPDATE ShellCommanders SET VAR = ?1, VAL = ?2 WHERE ID = ?3");
        reveal_strlit("UPDATE ShellCommanders");
        reveal_strlit(" SET VAR = ?1, VAL = ?2");
        reveal_strlit(" WHERE ID = ?3");
    }
}

proof fn lemma_count_update_item_by_var()
    ensures
        placeholder_count(UPDATE_ITEM_BY_VAR_SQL@) == 2,
{
    let first = "UPDATE ShellCommanders"@;
    let second = " SET VAL = ?1"@;
    let third = " WHERE VAR = ?2"@;
    assert(placeholder_count(first) == 0 && placeholder_count(second) == 1 && placeholder_count(third) == 1) by {
        reveal_with_fuel(placeholder_count, 23);
        reveal_strlit("UPDATE ShellCommanders");
        reveal_strlit(" SET VAL = ?1");
        reveal_strlit(" WHERE VAR = ?2");
    }
    lemma_placeholder_count_concat(first, second);
    lemma_placeholder_count_concat(first + second, third);
    assert(UPDATE_ITEM_BY_VAR_SQL@ =~= first + second + third) by {
        reveal_strlit("UPDATE ShellCommanders SET VAL = ?1 WHERE VAR = ?2");
        reveal_strlit("UPDATE ShellCommanders");
        reveal_strlit(" SET VAL = ?1");
        reveal_strlit(" WHERE VAR = ?2");
    }
}

proof fn lemma_count_delete_item()
    ensures
        placeholder_count(DELETE_ITEM_SQL@) == 1,
{
    reveal_with_fuel(placeholder_count, 42);
    reveal_strlit("DELETE FROM ShellCommanders WHERE ID = ?1");
}

proof fn lemma_count_item_exists()
    ensures
        placeholder_count(ITEM_EXISTS_SQL@) == 1,
{
    let first = "SELECT EXISTS ("@;
    let second = "SELECT 1 FROM ShellCommanders"@;
    let third = " WHERE ID = ?1)"@;
    assert(placeholder_count(first) == 0 && placeholder_count(second) == 0 && placeholder_count(third) == 1) by {
        reveal_with_fuel(placeholder_count, 30);
        reveal_strlit("SELECT EXISTS (");
        reveal_strlit("SELECT 1 FROM ShellCommanders");
        reveal_strlit(" WHERE ID = ?1)");
    }
    lemma_placeholder_count_concat(first, second);
    lemma_placeholder_count_concat(first + second, third);
    assert(ITEM_EXISTS_SQL@ =~= first + second + third) by {
        reveal_strlit("SELECT EXISTS (SELECT 1 FROM ShellCommanders WHERE ID = ?1)");
        reveal_strlit("SELECT EXISTS (");
        reveal_strlit("SELECT 1 FROM ShellCommanders");
        reveal_strlit(" WHERE ID = ?1)");
    }
}

proof fn lemma_count_item_exists_by_var()
    ensures
        placeholder_count(ITEM_EXISTS_BY_VAR_SQL@) == 1,
{
    let first = "SELECT EXISTS ("@;
    let second = "SELECT 1 FROM ShellCommanders"@;
    let third = " WHERE VAR = ?1)"@;
    assert(placeholder_count(first) == 0 && placeholder_count(second) == 0 && placeholder_count(third) == 1) by {
        reveal_with_fuel(placeholder_count, 30);
        reveal_strlit("SELECT EXISTS (");
        reveal_strlit("SELECT 1 FROM ShellCommanders");
        reveal_strlit(" WHERE VAR = ?1)");
    }
    lemma_placeholder_count_concat(first, second);
    lemma_placeholder_count_concat(first + second, third);
    assert(ITEM_EXISTS_BY_VAR_SQL@ =~= first + second + third) by {
        reveal_strlit("SELECT EXISTS (SELECT 1 FROM ShellCommanders WHERE VAR = ?1)");
        reveal_strlit("SELECT EXISTS (");
        reveal_strlit("SELECT 1 FROM ShellCommanders");
        reveal_strlit(" WHERE VAR = ?1)");
    }
}

proof fn lemma_count_compact()
    ensures
        placeholder_count(COMPACT_SQL@) == 0,
{
    reveal_with_fuel(placeholder_count, 7);
    reveal_strlit("VACUUM");
}

/// The text of each accessor's statement has as many placeholders as the
/// accessor binds values.
pub proof fn lemma_accessor_placeholders()
    ensures
        placeholder_count(INSERT_ITEM_SQL@) == 2,
        placeholder_count(INSERT_OR_UPDATE_ITEM_SQL@) == 2,
        placeholder_count(GET_ITEM_BY_ID_SQL@) == 1,
        placeholder_count(GET_ITEM_BY_VAR_SQL@) == 1,
        placeholder_count(GET_ALL_ITEMS_SQL@) == 0,
        placeholder_count(UPDATE_ITEM_SQL@) == 3,
        placeholder_count(UPDATE_ITEM_BY_VAR_SQL@) == 2,
        placeholder_count(DELETE_ITEM_SQL@) == 1,
        placeholder_count(ITEM_EXISTS_SQL@) == 1,
        placeholder_count(ITEM_EXISTS_BY_VAR_SQL@) == 1,
        placeholder_count(COMPACT_SQL@) == 0,
{
    lemma_count_insert_item();
    lemma_count_insert_or_update_item();
    lemma_count_get_item_by_id();
    lemma_count_get_item_by_var();
    lemma_count_get_all_items();
    lemma_count_update_item();
    lemma_count_update_item_by_var();
    lemma_count_delete_item();
    lemma_count_item_exists();
    lemma_count_item_exists_by_var();
    lemma_count_compact();
}

} // verus!
