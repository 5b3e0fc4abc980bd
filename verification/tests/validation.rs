use dbgate::err::DbError;
use dbgate::ident::{validate_column, validate_table};
use dbgate::ops::{
    db_delete, db_get_by_id, db_get_linked, db_insert, db_link, db_query, db_unlink, db_update,
};
use dbgate::value::JsonVal;

fn setup() -> rusqlite::Connection {
    rusqlite::Connection::open_in_memory().expect("open in-memory db")
}

#[test]
fn column_names_of_word_characters_pass() {
    assert!(validate_column("title").is_ok());
    assert!(validate_column("updated_at").is_ok());
    assert!(validate_column("Col_9").is_ok());
    assert!(validate_column("_").is_ok());
    assert!(validate_column("9lives").is_ok());
}

#[test]
fn column_names_outside_the_class_fail() {
    assert!(matches!(validate_column(""), Err(DbError::InvalidColumn(_))));
    assert!(matches!(validate_column("bad-name"), Err(DbError::InvalidColumn(_))));
    assert!(matches!(validate_column("a b"), Err(DbError::InvalidColumn(_))));
    assert!(matches!(validate_column("name;drop"), Err(DbError::InvalidColumn(_))));
    assert!(matches!(validate_column("col\u{00e9}"), Err(DbError::InvalidColumn(_))));
    assert!(matches!(validate_column("x'"), Err(DbError::InvalidColumn(_))));
}

#[test]
fn catalog_members_pass_table_validation() {
    for t in [
        "projects",
        "tasks",
        "meetings",
        "clients",
        "suppliers",
        "contracts",
        "ledger_expenses",
        "subscriptions",
        "digital_assets",
        "quote_line_items",
        "business_targets",
        "client_projects",
        "client_contracts",
        "project_contracts",
        "ledger_projects",
        "ledger_suppliers",
        "supplier_projects",
        "asset_ledger_links",
    ] {
        assert!(validate_table(t).is_ok(), "{t} should be allowed");
    }
}

#[test]
fn names_outside_the_catalog_fail_table_validation() {
    for t in ["", "task", "Tasks", "users", "sqlite_master", "tasks "] {
        assert!(matches!(validate_table(t), Err(DbError::ForbiddenTable(_))), "{t}");
    }
}

#[test]
fn every_operation_rejects_a_forbidden_table_before_touching_storage() {
    // The connection has no tables at all: a clean ForbiddenTable error
    // (not an engine error) shows storage was never reached.
    let conn = setup();
    let payload = JsonVal::Obj(vec![("a".to_string(), JsonVal::Int(1))]);
    assert!(matches!(
        db_query(&conn, "users", &None, &None),
        Err(DbError::ForbiddenTable(t)) if t == "users"
    ));
    assert!(matches!(
        db_get_by_id(&conn, "users", "x"),
        Err(DbError::ForbiddenTable(_))
    ));
    assert!(matches!(
        db_insert(&conn, "users", &payload),
        Err(DbError::ForbiddenTable(_))
    ));
    assert!(matches!(
        db_update(&conn, "users", "x", &payload),
        Err(DbError::ForbiddenTable(_))
    ));
    assert!(matches!(db_delete(&conn, "users", "x"), Err(DbError::ForbiddenTable(_))));
    assert!(matches!(
        db_link(&conn, "users", "a", "b"),
        Err(DbError::ForbiddenTable(_))
    ));
    assert!(matches!(
        db_unlink(&conn, "users", "a", "b"),
        Err(DbError::ForbiddenTable(_))
    ));
    assert!(matches!(
        db_get_linked(&conn, "users", "client_id", "a"),
        Err(DbError::ForbiddenTable(_))
    ));
}
