use qol_store::statement::{Param, Statement};

fn shape(s: &Statement) -> Vec<String> {
    s.params
        .iter()
        .map(|p| match p {
            Param::Int(i) => format!("int {i}"),
            Param::Text(t) => format!("text {t}"),
            Param::Null => "null".to_string(),
        })
        .collect()
}

#[test]
fn insert_item_statement() {
    let s = Statement::insert_item("PATH", Some("/usr/bin"));
    assert_eq!(s.sql, "INSERT OR IGNORE INTO ShellCommanders (VAR, VAL) VALUES (?1, ?2)");
    assert_eq!(shape(&s), vec!["text PATH", "text /usr/bin"]);
    let s = Statement::insert_item("PATH", None);
    assert_eq!(shape(&s), vec!["text PATH", "null"]);
}

#[test]
fn insert_or_update_item_statement() {
    let s = Statement::insert_or_update_item("K", Some("v"));
    assert_eq!(
        s.sql,
        "INSERT INTO ShellCommanders (VAR, VAL) VALUES (?1, ?2) ON CONFLICT(VAR) DO UPDATE SET VAL = excluded.VAL"
    );
    assert_eq!(shape(&s), vec!["text K", "text v"]);
}

#[test]
fn lookup_statements() {
    let s = Statement::get_item_by_id(9999);
    assert_eq!(s.sql, "SELECT ID, VAR, VAL FROM ShellCommanders WHERE ID = ?1");
    assert_eq!(shape(&s), vec!["int 9999"]);
    let s = Statement::get_item_by_var("HOME");
    assert_eq!(s.sql, "SELECT ID, VAR, VAL FROM ShellCommanders WHERE VAR = ?1");
    assert_eq!(shape(&s), vec!["text HOME"]);
    let s = Statement::get_all_items();
    assert_eq!(s.sql, "SELECT ID, VAR, VAL FROM ShellCommanders");
    assert!(s.params.is_empty());
}

#[test]
fn update_statements_bind_in_the_order_of_the_placeholders() {
    let s = Statement::update_item(-3, "K", None);
    assert_eq!(s.sql, "UPDATE ShellCommanders SET VAR = ?1, VAL = ?2 WHERE ID = ?3");
    assert_eq!(shape(&s), vec!["text K", "null", "int -3"]);
    let s = Statement::update_item_by_var("K", Some("v"));
    assert_eq!(s.sql, "UPDATE ShellCommanders SET VAL = ?1 WHERE VAR = ?2");
    assert_eq!(shape(&s), vec!["text v", "text K"]);
}

#[test]
fn delete_exists_and_compact_statements() {
    let s = Statement::delete_item(i32::MIN);
    assert_eq!(s.sql, "DELETE FROM ShellCommanders WHERE ID = ?1");
    assert_eq!(shape(&s), vec![format!("int {}", i32::MIN)]);
    let s = Statement::item_exists(7);
    assert_eq!(s.sql, "SELECT EXISTS (SELECT 1 FROM ShellCommanders WHERE ID = ?1)");
    assert_eq!(shape(&s), vec!["int 7"]);
    let s = Statement::item_exists_by_var("K");
    assert_eq!(s.sql, "SELECT EXISTS (SELECT 1 FROM ShellCommanders WHERE VAR = ?1)");
    assert_eq!(shape(&s), vec!["text K"]);
    let s = Statement::compact();
    assert_eq!(s.sql, "VACUUM");
    assert!(s.params.is_empty());
}

#[test]
fn values_never_reach_the_text() {
    let hostile = "x'); DROP TABLE ShellCommanders; --";
    let plain = Statement::insert_item("a", Some("b"));
    let odd = Statement::insert_item(hostile, Some(hostile));
    assert_eq!(plain.sql, odd.sql);
    assert_eq!(shape(&odd), vec![format!("text {hostile}"), format!("text {hostile}")]);
    assert_eq!(Statement::get_item_by_var(hostile).sql, Statement::get_item_by_var("a").sql);
    assert_eq!(Statement::get_item_by_id(1).sql, Statement::get_item_by_id(2).sql);
}

#[test]
fn every_placeholder_has_its_value() {
    let all = vec![
        Statement::insert_item("a", None),
        Statement::insert_or_update_item("a", None),
        Statement::get_item_by_id(1),
        Statement::get_item_by_var("a"),
        Statement::get_all_items(),
        Statement::update_item(1, "a", None),
        Statement::update_item_by_var("a", None),
        Statement::delete_item(1),
        Statement::item_exists(1),
        Statement::item_exists_by_var("a"),
        Statement::compact(),
    ];
    for s in &all {
        assert_eq!(s.sql.matches('?').count(), s.params.len(), "{}", s.sql);
        for n in 1..=s.params.len() {
            assert!(s.sql.contains(&format!("?{n}")), "{}", s.sql);
        }
    }
}

#[test]
fn param_constructors() {
    assert!(matches!(Param::text("abc"), Param::Text(t) if t == "abc"));
    assert!(matches!(Param::nullable_text(Some("")), Param::Text(t) if t.is_empty()));
    assert!(matches!(Param::nullable_text(None), Param::Null));
    let s = Statement::new("SELECT 1".to_string(), Vec::new());
    assert_eq!(s.sql, "SELECT 1");
    assert!(s.params.is_empty());
}
