//! The tables of the store and the statement text for each verb on each of
//! them.

use vstd::prelude::*;

verus! {

/// The tables that the schema declares. Each has an integer `ID` and two
/// further columns, one of which is unique.
#[derive(Clone, Copy, Debug, PartialEq, Eq, Structural)]
pub enum Tables {
    ShellCommanders,
    Quotes,
    DailyQuotes,
}

/// A verb on a table.
#[derive(Clone, Copy, Debug, PartialEq, Eq, Structural)]
pub enum Action {
    Insert(Tables),
    Update(Tables),
    Delete(Tables),
    Select(Tables),
}

impl Tables {
    /// The table's name in the schema.
    pub open spec fn name(self) -> Seq<char> {
        match self {
            Tables::ShellCommanders => "ShellCommanders"@,
            Tables::Quotes => "Quotes"@,
            Tables::DailyQuotes => "DailyQuotes"@,
        }
    }

    /// The first column after `ID`.
    pub open spec fn first_column(self) -> Seq<char> {
        match self {
            Tables::ShellCommanders => "VAR"@,
            Tables::Quotes => "QUOTE"@,
            Tables::DailyQuotes => "QUOTE_ID"@,
        }
    }

    /// The second column after `ID`.
    pub open spec fn second_column(self) -> Seq<char> {
        match self {
            Tables::ShellCommanders => "VAL"@,
            Tables::Quotes => "AUTHOR"@,
            Tables::DailyQuotes => "DATE"@,
        }
    }

    /// Whether the unique column is the first one after `ID`.
    pub open spec fn key_comes_first(self) -> bool {
        !(self is DailyQuotes)
    }

    /// The column that the schema declares unique.
    pub open spec fn key_column(self) -> Seq<char> {
        if self.key_comes_first() {
            self.first_column()
        } else {
            self.second_column()
        }
    }

    /// The column that holds what is stored under the key.
    pub open spec fn value_column(self) -> Seq<char> {
        if self.key_comes_first() {
            self.second_column()
        } else {
            self.first_column()
        }
    }

    /// The table's name in the schema.
    pub fn table_name(&self) -> (s: &'static str)
        ensures
            s@ == self.name(),
    {
        match self {
            Tables::ShellCommanders => "ShellCommanders",
            Tables::Quotes => "Quotes",
            Tables::DailyQuotes => "DailyQuotes",
        }
    }

    /// The table's name as a string of its own.
    pub fn to_string(&self) -> (s: String)
        ensures
            s@ == self.name(),
    {
        String::from_str(self.table_name())
    }

    /// The names of the two columns after `ID`, in the schema's order.
    pub fn columns(&self) -> (c: (&'static str, &'static str))
        ensures
            c.0@ == self.first_column(),
            c.1@ == self.second_column(),
    {
        match self {
            Tables::ShellCommanders => ("VAR", "VAL"),
            Tables::Quotes => ("QUOTE", "AUTHOR"),
            Tables::DailyQuotes => ("QUOTE_ID", "DATE"),
        }
    }

    /// The names of the unique column and of the column stored under it.
    pub fn key_and_value(&self) -> (c: (&'static str, &'static str))
        ensures
            c.0@ == self.key_column(),
            c.1@ == self.value_column(),
    {
        let (first, second) = self.columns();
        match self {
            Tables::DailyQuotes => (second, first),
            _ => (first, second),
        }
    }
}

/// The text of the statement for a verb on a table.
///
/// An insert writes both columns and, where the key is taken, replaces what
/// is stored under it; an update replaces what is stored under a key; a
/// delete and a select address one row by its `ID`. Values never stand in
/// the text: each is a numbered placeholder.
pub open spec fn statement_text(action: Action) -> Seq<char> {
    match action {
        Action::Insert(t) => "INSERT OR IGNORE INTO "@ + t.name() + " ("@ + t.first_column()
            + ", "@ + t.second_column() + ") VALUES (?1, ?2) ON CONFLICT("@ + t.key_column()
            + ") DO UPDATE SET "@ + t.value_column() + " = excluded."@ + t.value_column(),
        Action::Update(t) => "UPDATE "@ + t.name() + " SET "@ + t.value_column()
            + " = ?1 WHERE "@ + t.key_column() + " = ?2"@,
        Action::Delete(t) => "DELETE FROM "@ + t.name() + " WHERE ID = ?1"@,
        Action::Select(t) => "SELECT ID, "@ + t.first_column() + ", "@ + t.second_column()
            + " FROM "@ + t.name() + " WHERE ID = ?1"@,
    }
}

/// The number of values that the statement for a verb takes.
pub open spec fn placeholders(action: Action) -> nat {
    match action {
        Action::Insert(_) => 2,
        Action::Update(_) => 2,
        Action::Delete(_) => 1,
        Action::Select(_) => 1,
    }
}

/// Writes the statement for a verb on a table.
pub fn build_statement_text(action: Action) -> (query: String)
    ensures
        query@ == statement_text(action),
{
    match action {
        Action::Insert(t) => {
            let (first, second) = t.columns();
            let (key, value) = t.key_and_value();
            let mut query = String::from_str("INSERT OR IGNORE INTO ");
            query.append(t.table_name());
            query.append(" (");
            query.append(first);
            query.append(", ");
            query.append(second);
            query.append(") VALUES (?1, ?2) ON CONFLICT(");
            query.append(key);
            query.append(") DO UPDATE SET ");
            query.append(value);
            query.append(" = excluded.");
            query.append(value);
            query
        },
        Action::Update(t) => {
            let (key, value) = t.key_and_value();
            let mut query = String::from_str("UPDATE ");
            query.append(t.table_name());
            query.append(" SET ");
            query.append(value);
            query.append(" = ?1 WHERE ");
            query.append(key);
            query.append(" = ?2");
            query
        },
        Action::Delete(t) => {
            let mut query = String::from_str("DELETE FROM ");
            query.append(t.table_name());
            query.append(" WHERE ID = ?1");
            query
        },
        Action::Select(t) => {
            let (first, second) = t.columns();
            let mut query = String::from_str("SELECT ID, ");
            query.append(first);
            query.append(", ");
            query.append(second);
            query.append(" FROM ");
            query.append(t.table_name());
            query.append(" WHERE ID = ?1");
            query
        },
    }
}

/// The number of placeholders in a statement's text: a placeholder is a
/// question mark followed by its number, and no text of this library holds
/// a question mark otherwise.
pub open spec fn placeholder_count(text: Seq<char>) -> nat
    decreases text.len(),
{
    if text.len() == 0 {
        0
    } else {
        placeholder_count(text.drop_last()) + if text.last() == '?' {
            1nat
        } else {
            0nat
        }
    }
}

/// The placeholders of two texts put together are those of the first and
/// those of the second.
pub proof fn lemma_placeholder_count_concat(a: Seq<char>, b: Seq<char>)
    ensures
        placeholder_count(a + b) == placeholder_count(a) + placeholder_count(b),
    decreases b.len(),
{
    if b.len() == 0 {
        assert(a + b =~= a);
    } else {
        assert((a + b).drop_last() =~= a + b.drop_last());
        assert((a + b).last() == b.last());
        lemma_placeholder_count_concat(a, b.drop_last());
    }
}

/// No name of a table or of a column holds a placeholder.
pub proof fn lemma_names_hold_no_placeholder(table: Tables)
    ensures
        placeholder_count(table.name()) == 0,
        placeholder_count(table.first_column()) == 0,
        placeholder_count(table.second_column()) == 0,
        placeholder_count(table.key_column()) == 0,
        placeholder_count(table.value_column()) == 0,
{
    reveal_with_fuel(placeholder_count, 20);
    reveal_strlit("ShellCommanders");
    reveal_strlit("Quotes");
    reveal_strlit("DailyQuotes");
    reveal_strlit("VAR");
    reveal_strlit("VAL");
    reveal_strlit("QUOTE");
    reveal_strlit("AUTHOR");
    reveal_strlit("QUOTE_ID");
    reveal_strlit("DATE");
}

proof fn lemma_insert_placeholders(t: Tables)
    ensures
        placeholder_count(statement_text(Action::Insert(t))) == 2,
{
    lemma_names_hold_no_placeholder(t);
    let s0 = "INSERT OR IGNORE INTO "@;
    let s1 = s0 + t.name();
    let s2 = s1 + " ("@;
    let s3 = s2 + t.first_column();
    let s4 = s3 + ", "@;
    let s5 = s4 + t.second_column();
    let s6 = s5 + ") VALUES (?1, ?2) ON CONFLICT("@;
    let s7 = s6 + t.key_column();
    let s8 = s7 + ") DO UPDATE SET "@;
    let s9 = s8 + t.value_column();
    let s10 = s9 + " = excluded."@;
    let s11 = s10 + t.value_column();
    assert(statement_text(Action::Insert(t)) == s11);
    assert(placeholder_count(s0) == 0 && placeholder_count(" ("@) == 0 && placeholder_count(", "@)
        == 0 && placeholder_count(") VALUES (?1, ?2) ON CONFLICT("@) == 2 && placeholder_count(
        ") DO UPDATE SET "@,
    ) == 0 && placeholder_count(" = excluded."@) == 0) by {
        reveal_with_fuel(placeholder_count, 32);
        reveal_strlit("INSERT OR IGNORE INTO ");
        reveal_strlit(" (");
        reveal_strlit(", ");
        reveal_strlit(") VALUES (?1, ?2) ON CONFLICT(");
        reveal_strlit(") DO UPDATE SET ");
        reveal_strlit(" = excluded.");
    }
    lemma_placeholder_count_concat(s0, t.name());
    lemma_placeholder_count_concat(s1, " ("@);
    lemma_placeholder_count_concat(s2, t.first_column());
    lemma_placeholder_count_concat(s3, ", "@);
    lemma_placeholder_count_concat(s4, t.second_column());
    lemma_placeholder_count_concat(s5, ") VALUES (?1, ?2) ON CONFLICT("@);
    lemma_placeholder_count_concat(s6, t.key_column());
    lemma_placeholder_count_concat(s7, ") DO UPDATE SET "@);
    lemma_placeholder_count_concat(s8, t.value_column());
    lemma_placeholder_count_concat(s9, " = excluded."@);
    lemma_placeholder_count_concat(s10, t.value_column());
}

proof fn lemma_update_placeholders(t: Tables)
    ensures
        placeholder_count(statement_text(Action::Update(t))) == 2,
{
    lemma_names_hold_no_placeholder(t);
    let s0 = "UPDATE "@;
    let s1 = s0 + t.name();
    let s2 = s1 + " SET "@;
    let s3 = s2 + t.value_column();
    let s4 = s3 + " = ?1 WHERE "@;
    let s5 = s4 + t.key_column();
    let s6 = s5 + " = ?2"@;
    assert(statement_text(Action::Update(t)) == s6);
    assert(placeholder_count(s0) == 0 && placeholder_count(" SET "@) == 0 && placeholder_count(
        " = ?1 WHERE "@,
    ) == 1 && placeholder_count(" = ?2"@) == 1) by {
        reveal_with_fuel(placeholder_count, 16);
        reveal_strlit("UPDATE ");
        reveal_strlit(" SET ");
        reveal_strlit(" = ?1 WHERE ");
        reveal_strlit(" = ?2");
    }
    lemma_placeholder_count_concat(s0, t.name());
    lemma_placeholder_count_concat(s1, " SET "@);
    lemma_placeholder_count_concat(s2, t.value_column());
    lemma_placeholder_count_concat(s3, " = ?1 WHERE "@);
    lemma_placeholder_count_concat(s4, t.key_column());
    lemma_placeholder_count_concat(s5, " = ?2"@);
}

proof fn lemma_delete_placeholders(t: Tables)
    ensures
        placeholder_count(statement_text(Action::Delete(t))) == 1,
{
    lemma_names_hold_no_placeholder(t);
    let s0 = "DELETE FROM "@;
    let s1 = s0 + t.name();
    let s2 = s1 + " WHERE ID = ?1"@;
    assert(statement_text(Action::Delete(t)) == s2);
    assert(placeholder_count(s0) == 0 && placeholder_count(" WHERE ID = ?1"@) == 1) by {
        reveal_with_fuel(placeholder_count, 16);
        reveal_strlit("DELETE FROM ");
        reveal_strlit(" WHERE ID = ?1");
    }
    lemma_placeholder_count_concat(s0, t.name());
    lemma_placeholder_count_concat(s1, " WHERE ID = ?1"@);
}

proof fn lemma_select_placeholders(t: Tables)
    ensures
        placeholder_count(statement_text(Action::Select(t))) == 1,
{
    lemma_names_hold_no_placeholder(t);
    let s0 = "SELECT ID, "@;
    let s1 = s0 + t.first_column();
    let s2 = s1 + ", "@;
    let s3 = s2 + t.second_column();
    let s4 = s3 + " FROM "@;
    let s5 = s4 + t.name();
    let s6 = s5 + " WHERE ID = ?1"@;
    assert(statement_text(Action::Select(t)) == s6);
    assert(placeholder_count(s0) == 0 && placeholder_count(", "@) == 0 && placeholder_count(
        " FROM "@,
    ) == 0 && placeholder_count(" WHERE ID = ?1"@) == 1) by {
        reveal_with_fuel(placeholder_count, 16);
        reveal_strlit("SELECT ID, ");
        reveal_strlit(", ");
        reveal_strlit(" FROM ");
        reveal_strlit(" WHERE ID = ?1");
    }
    lemma_placeholder_count_concat(s0, t.first_column());
    lemma_placeholder_count_concat(s1, ", "@);
    lemma_placeholder_count_concat(s2, t.second_column());
    lemma_placeholder_count_concat(s3, " FROM "@);
    lemma_placeholder_count_concat(s4, t.name());
    lemma_placeholder_count_concat(s5, " WHERE ID = ?1"@);
}

/// The statement for a verb has exactly as many placeholders as the verb
/// takes values, on every table.
pub proof fn lemma_statement_text_placeholders(action: Action)
    ensures
        placeholder_count(statement_text(action)) == placeholders(action),
{
    match action {
        Action::Insert(t) => lemma_insert_placeholders(t),
        Action::Update(t) => lemma_update_placeholders(t),
        Action::Delete(t) => lemma_delete_placeholders(t),
        Action::Select(t) => lemma_select_placeholders(t),
    }
}

} // verus!
