use qol_store::database::Database;
use qol_store::error::{ErrorKind, FailureKind};

const SCHEMA: &str = "
CREATE TABLE IF NOT EXISTS ShellCommanders (
    ID INTEGER PRIMARY KEY AUTOINCREMENT,
    VAR TEXT NOT NULL UNIQUE,
    VAL TEXT
);
CREATE TABLE IF NOT EXISTS Quotes (
    ID INTEGER PRIMARY KEY AUTOINCREMENT,
    QUOTE TEXT NOT NULL UNIQUE,
    AUTHOR TEXT
);
CREATE TABLE IF NOT EXISTS DailyQuotes (
    ID INTEGER PRIMARY KEY AUTOINCREMENT,
    QUOTE_ID INTEGER NOT NULL,
    DATE TEXT NOT NULL UNIQUE
);
";

fn fresh() -> Database {
    let db = Database::new(":memory:").unwrap();
    db.create_table(Ok(SCHEMA.to_string())).unwrap();
    db
}

fn table_names(conn: &rusqlite::Connection) -> Vec<String> {
    let mut stmt = conn
        .prepare("SELECT name FROM sqlite_master WHERE type = 'table' ORDER BY name")
        .unwrap();
    let names = stmt.query_map([], |row| row.get::<_, String>(0)).unwrap();
    names.map(|n| n.unwrap()).collect()
}

#[test]
fn schema_bootstrap_is_idempotent() {
    let uri = "file:schema_bootstrap_is_idempotent?mode=memory&cache=shared";
    let db = Database::new(uri).unwrap();
    let observer = rusqlite::Connection::open(uri).unwrap();
    assert!(table_names(&observer).is_empty());
    db.create_table(Ok(SCHEMA.to_string())).unwrap();
    let once = table_names(&observer);
    db.create_table(Ok(SCHEMA.to_string())).unwrap();
    let twice = table_names(&observer);
    assert_eq!(once, twice);
    assert!(once.contains(&"ShellCommanders".to_string()));
    assert!(once.contains(&"Quotes".to_string()));
    assert!(once.contains(&"DailyQuotes".to_string()));
}

#[test]
fn schema_bootstrap_keeps_rows() {
    let db = fresh();
    db.insert_item("EDITOR", Some("vi")).unwrap();
    db.create_table(Ok(SCHEMA.to_string())).unwrap();
    assert_eq!(db.get_all_items().unwrap().len(), 1);
}

#[test]
fn unread_schema_is_a_schema_load_error() {
    let db = Database::new(":memory:").unwrap();
    let err = db.create_table(Err("rsrc/database.sql: no such file".to_string())).unwrap_err();
    assert_eq!(err.kind, ErrorKind::SchemaLoad);
    assert_eq!(err.message, "rsrc/database.sql: no such file");
    assert_eq!(err.to_string(), "rsrc/database.sql: no such file");
    assert_eq!(err.cause, None);
    let err = db.get_all_items().unwrap_err();
    assert_eq!(err.kind, ErrorKind::Query);
}

#[test]
fn malformed_schema_is_a_schema_apply_error() {
    let db = Database::new(":memory:").unwrap();
    let err = db.create_table(Ok("CREATE TABLE (".to_string())).unwrap_err();
    assert_eq!(err.kind, ErrorKind::SchemaApply);
    assert!(!err.message.is_empty());
}

#[test]
fn failing_batch_is_not_rolled_back() {
    let db = Database::new(":memory:").unwrap();
    let text = "CREATE TABLE ShellCommanders (ID INTEGER PRIMARY KEY, VAR TEXT UNIQUE, VAL TEXT);
                CREATE TABLE (";
    let err = db.create_table(Ok(text.to_string())).unwrap_err();
    assert_eq!(err.kind, ErrorKind::SchemaApply);
    assert_eq!(db.insert_item("A", None).unwrap(), 1);
}

#[test]
fn unopenable_file_is_a_connection_error() {
    let err = Database::new("/no/such/directory/anywhere/database.db").err().unwrap();
    assert_eq!(err.kind, ErrorKind::Connection);
}

#[test]
fn insert_then_get_by_key_matches() {
    let db = fresh();
    let pairs: Vec<(&str, Option<&str>)> = vec![
        ("PATH", Some("/usr/bin")),
        ("EMPTY", Some("")),
        ("NOTHING", None),
        ("quote'd; DROP TABLE ShellCommanders", Some("?1")),
        ("unicode", Some("\u{e9}t\u{e9} \u{2603}")),
    ];
    for (var, val) in &pairs {
        assert_eq!(db.insert_item(var, *val).unwrap(), 1);
    }
    for (var, val) in &pairs {
        let item = db.get_item_by_var(var).unwrap();
        assert_eq!(item.var, *var);
        assert_eq!(item.val.as_deref(), *val);
        let again = db.get_item_by_id(item.id).unwrap();
        assert_eq!(again.var, *var);
        assert_eq!(again.val.as_deref(), *val);
    }
}

#[test]
fn insert_or_ignore_keeps_the_first_value() {
    let db = fresh();
    assert_eq!(db.insert_item("SHELL", Some("bash")).unwrap(), 1);
    assert_eq!(db.insert_item("SHELL", Some("zsh")).unwrap(), 0);
    assert_eq!(db.get_item_by_var("SHELL").unwrap().val.as_deref(), Some("bash"));
    assert_eq!(db.get_all_items().unwrap().len(), 1);
}

#[test]
fn insert_or_update_overwrites_the_value() {
    let db = fresh();
    assert_eq!(db.insert_or_update_item("SHELL", Some("bash")).unwrap(), 1);
    let first = db.get_item_by_var("SHELL").unwrap();
    assert_eq!(db.insert_or_update_item("SHELL", Some("zsh")).unwrap(), 1);
    let second = db.get_item_by_var("SHELL").unwrap();
    assert_eq!(second.val.as_deref(), Some("zsh"));
    assert_eq!(second.id, first.id);
    assert_eq!(db.insert_or_update_item("SHELL", None).unwrap(), 1);
    assert_eq!(db.get_item_by_var("SHELL").unwrap().val, None);
    assert_eq!(db.get_all_items().unwrap().len(), 1);
}

#[test]
fn delete_then_exists_is_false() {
    let db = fresh();
    db.insert_item("TERM", Some("xterm")).unwrap();
    let id = db.get_item_by_var("TERM").unwrap().id;
    assert!(db.item_exists(id).unwrap());
    assert!(db.item_exists_by_var("TERM").unwrap());
    assert_eq!(db.delete_item(id).unwrap(), 1);
    assert!(!db.item_exists(id).unwrap());
    assert!(!db.item_exists_by_var("TERM").unwrap());
    assert_eq!(db.delete_item(id).unwrap(), 0);
}

#[test]
fn exists_on_never_inserted_id_is_false() {
    let db = fresh();
    assert!(!db.item_exists(1).unwrap());
    assert!(!db.item_exists(-7).unwrap());
    assert!(!db.item_exists(i32::MAX).unwrap());
    assert!(!db.item_exists_by_var("never").unwrap());
}

#[test]
fn update_of_missing_id_changes_nothing() {
    let db = fresh();
    assert_eq!(db.update_item(4242, "K", Some("v")).unwrap(), 0);
    assert_eq!(db.update_item_by_var("missing", Some("v")).unwrap(), 0);
    assert!(db.get_all_items().unwrap().is_empty());
}

#[test]
fn update_overwrites_key_and_value() {
    let db = fresh();
    db.insert_item("OLD", Some("1")).unwrap();
    let id = db.get_item_by_var("OLD").unwrap().id;
    assert_eq!(db.update_item(id, "NEW", None).unwrap(), 1);
    let item = db.get_item_by_id(id).unwrap();
    assert_eq!(item.var, "NEW");
    assert_eq!(item.val, None);
    assert_eq!(db.get_item_by_var("OLD").unwrap_err().kind, ErrorKind::NotFound);
}

#[test]
fn update_to_a_taken_key_is_a_constraint_error() {
    let db = fresh();
    db.insert_item("A", Some("1")).unwrap();
    db.insert_item("B", Some("2")).unwrap();
    let id = db.get_item_by_var("B").unwrap().id;
    let err = db.update_item(id, "A", Some("3")).unwrap_err();
    assert_eq!(err.kind, ErrorKind::Constraint);
    assert_eq!(err.cause, Some(FailureKind::Engine { code: 2067 }));
    assert!(!err.message.is_empty());
    assert_eq!(db.get_item_by_id(id).unwrap().var, "B");
}

#[test]
fn get_all_returns_each_inserted_pair_once() {
    let db = fresh();
    assert!(db.get_all_items().unwrap().is_empty());
    let mut expected: Vec<(String, Option<String>)> = Vec::new();
    for n in 0..25 {
        let var = format!("KEY_{n}");
        let val = if n % 3 == 0 { None } else { Some(format!("value {n}")) };
        assert_eq!(db.insert_item(&var, val.as_deref()).unwrap(), 1);
        expected.push((var, val));
    }
    let items = db.get_all_items().unwrap();
    assert_eq!(items.len(), 25);
    let mut got: Vec<(String, Option<String>)> =
        items.iter().map(|i| (i.var.clone(), i.val.clone())).collect();
    got.sort();
    expected.sort();
    assert_eq!(got, expected);
    let mut ids: Vec<i32> = items.iter().map(|i| i.id).collect();
    ids.sort();
    ids.dedup();
    assert_eq!(ids.len(), 25);
}

#[test]
fn path_scenario() {
    let db = fresh();
    db.insert_item("PATH", Some("/usr/bin")).unwrap();
    let item = db.get_item_by_var("PATH").unwrap();
    assert_eq!(item.var, "PATH");
    assert_eq!(item.val, Some("/usr/bin".to_string()));
    assert_eq!(db.update_item_by_var("PATH", Some("/bin")).unwrap(), 1);
    let item = db.get_item_by_var("PATH").unwrap();
    assert_eq!(item.val, Some("/bin".to_string()));
}

#[test]
fn get_by_id_on_empty_table_is_not_found() {
    let db = fresh();
    let err = db.get_item_by_id(9999).unwrap_err();
    assert_eq!(err.kind, ErrorKind::NotFound);
    assert_ne!(err.kind, ErrorKind::Query);
    assert_eq!(err.cause, Some(FailureKind::NoRows));
    let err = db.get_item_by_var("PATH").unwrap_err();
    assert_eq!(err.kind, ErrorKind::NotFound);
    assert_eq!(err.cause, Some(FailureKind::NoRows));
}

#[test]
fn lookup_without_table_is_a_query_error() {
    let db = Database::new(":memory:").unwrap();
    assert_eq!(db.get_item_by_id(1).unwrap_err().kind, ErrorKind::Query);
    assert_eq!(db.insert_item("A", None).unwrap_err().kind, ErrorKind::Query);
    assert_eq!(db.item_exists(1).unwrap_err().kind, ErrorKind::Query);
    assert_eq!(db.get_all_items().unwrap_err().kind, ErrorKind::Query);
}

#[test]
fn row_with_an_unreadable_column_fails_the_listing() {
    let uri = "file:row_with_an_unreadable_column?mode=memory&cache=shared";
    let db = Database::new(uri).unwrap();
    db.create_table(Ok(SCHEMA.to_string())).unwrap();
    db.insert_item("good", Some("1")).unwrap();
    let other = rusqlite::Connection::open(uri).unwrap();
    other
        .execute("INSERT INTO ShellCommanders (ID, VAR, VAL) VALUES (5000000000, 'wide', 'x')", [])
        .unwrap();
    let err = db.get_all_items().unwrap_err();
    assert_eq!(err.kind, ErrorKind::Query);
    let err = db.get_item_by_var("wide").unwrap_err();
    assert_eq!(err.kind, ErrorKind::Query);
    assert_eq!(db.get_item_by_var("good").unwrap().val.as_deref(), Some("1"));
}

#[test]
fn compaction_succeeds() {
    let db = fresh();
    for n in 0..10 {
        db.insert_item(&format!("K{n}"), Some("v")).unwrap();
    }
    for item in db.get_all_items().unwrap() {
        db.delete_item(item.id).unwrap();
    }
    assert!(db.update_database_file().is_ok());
    assert!(db.get_all_items().unwrap().is_empty());
}

#[test]
fn lookup_after_delete_is_not_found() {
    let db = fresh();
    db.insert_item("A", Some("1")).unwrap();
    db.insert_item("B", Some("2")).unwrap();
    let a = db.get_item_by_var("A").unwrap().id;
    let b = db.get_item_by_var("B").unwrap().id;
    assert_eq!(db.delete_item(a).unwrap(), 1);
    let err = db.get_item_by_id(a).unwrap_err();
    assert_eq!(err.kind, ErrorKind::NotFound);
    assert_eq!(err.cause, Some(FailureKind::NoRows));
    assert_eq!(db.get_item_by_id(b).unwrap().val.as_deref(), Some("2"));
}

#[test]
fn key_shaped_like_an_injection_is_compared_as_a_value() {
    let db = fresh();
    db.insert_item("A", Some("1")).unwrap();
    let err = db.get_item_by_var("x' OR '1'='1").unwrap_err();
    assert_eq!(err.kind, ErrorKind::NotFound);
    assert_eq!(db.get_all_items().unwrap().len(), 1);
}

#[test]
fn every_failure_holds_what_the_engine_said() {
    let db = Database::new(":memory:").unwrap();
    let err = db.insert_item("A", None).unwrap_err();
    assert_eq!(err.kind, ErrorKind::Query);
    assert!(matches!(err.cause, Some(FailureKind::Engine { .. })));
    let err = db.create_table(Ok("CREATE TABLE (".to_string())).unwrap_err();
    assert_eq!(err.kind, ErrorKind::SchemaApply);
    assert!(err.cause.is_some());
    let err = Database::new("/no/such/directory/anywhere/database.db").err().unwrap();
    assert_eq!(err.kind, ErrorKind::Connection);
    assert_eq!(err.cause, Some(FailureKind::Engine { code: 14 }));
}
