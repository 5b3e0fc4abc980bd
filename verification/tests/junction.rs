use dbgate::err::DbError;
use dbgate::ops::{db_get_linked, db_link, db_unlink, get_junction_columns, junction_pair_of, other_column};
use dbgate::value::SqlVal;

fn setup() -> rusqlite::Connection {
    let conn = rusqlite::Connection::open_in_memory().expect("open in-memory db");
    conn.execute_batch(
        "CREATE TABLE client_projects (client_id TEXT NOT NULL, project_id TEXT NOT NULL, \
         PRIMARY KEY (client_id, project_id)); \
         CREATE TABLE suppliers (id TEXT PRIMARY KEY, name TEXT, updated_at TEXT);",
    )
    .expect("schema");
    conn
}

fn count(conn: &rusqlite::Connection) -> i64 {
    conn.query_row("SELECT count(*) FROM client_projects", [], |r| r.get(0)).expect("count")
}

#[test]
fn junction_columns_are_discovered_from_metadata() {
    let conn = setup();
    let (c0, c1) = get_junction_columns(&conn, "client_projects").expect("columns");
    assert_eq!(c0, "client_id");
    assert_eq!(c1, "project_id");
}

#[test]
fn a_table_without_exactly_two_columns_is_no_junction() {
    let conn = setup();
    assert!(matches!(
        db_link(&conn, "suppliers", "a", "b"),
        Err(DbError::InvalidJunction(t)) if t == "suppliers"
    ));
    assert!(matches!(
        db_unlink(&conn, "suppliers", "a", "b"),
        Err(DbError::InvalidJunction(_))
    ));
    assert!(matches!(
        db_get_linked(&conn, "suppliers", "id", "a"),
        Err(DbError::InvalidJunction(_))
    ));
}

#[test]
fn link_twice_leaves_exactly_one_relation_row() {
    let conn = setup();
    db_link(&conn, "client_projects", "c1", "p1").expect("link");
    db_link(&conn, "client_projects", "c1", "p1").expect("second link is ignored");
    assert_eq!(count(&conn), 1);
}

#[test]
fn unlink_of_a_missing_pair_succeeds_with_no_effect() {
    let conn = setup();
    db_link(&conn, "client_projects", "c1", "p1").expect("link");
    db_unlink(&conn, "client_projects", "c9", "p9").expect("unlink of nothing");
    assert_eq!(count(&conn), 1);
    db_unlink(&conn, "client_projects", "c1", "p1").expect("unlink");
    assert_eq!(count(&conn), 0);
}

#[test]
fn get_linked_returns_the_other_column_and_follows_link_and_unlink() {
    let conn = setup();
    db_link(&conn, "client_projects", "c1", "p1").expect("link");
    db_link(&conn, "client_projects", "c1", "p2").expect("link");
    let linked = db_get_linked(&conn, "client_projects", "client_id", "c1").expect("linked");
    assert!(linked.contains(&"p1".to_string()));
    assert!(linked.contains(&"p2".to_string()));
    assert_eq!(linked.len(), 2);
    // and from the other side
    let owners = db_get_linked(&conn, "client_projects", "project_id", "p1").expect("linked");
    assert_eq!(owners, vec!["c1".to_string()]);
    db_unlink(&conn, "client_projects", "c1", "p1").expect("unlink");
    let linked = db_get_linked(&conn, "client_projects", "client_id", "c1").expect("linked");
    assert!(!linked.contains(&"p1".to_string()));
    assert!(linked.contains(&"p2".to_string()));
}

#[test]
fn get_linked_rejects_a_column_outside_the_junction() {
    let conn = setup();
    assert!(matches!(
        db_get_linked(&conn, "client_projects", "owner_id", "c1"),
        Err(DbError::ColumnNotInJunction(t, c)) if t == "client_projects" && c == "owner_id"
    ));
    assert!(matches!(
        db_get_linked(&conn, "client_projects", "bad;col", "c1"),
        Err(DbError::InvalidColumn(_))
    ));
}

fn info_row(name: &str) -> Vec<(String, SqlVal)> {
    vec![
        ("cid".to_string(), SqlVal::Int(0)),
        ("name".to_string(), SqlVal::Text(name.to_string())),
    ]
}

#[test]
fn the_junction_pair_is_the_two_metadata_names_in_row_order() {
    let rows = vec![info_row("client_id"), info_row("project_id")];
    let (c0, c1) = junction_pair_of("client_projects", &rows).expect("pair");
    assert_eq!(c0, "client_id");
    assert_eq!(c1, "project_id");
}

#[test]
fn metadata_with_other_than_two_columns_is_an_invalid_junction() {
    let rows = vec![info_row("id"), info_row("name"), info_row("updated_at")];
    assert!(matches!(
        junction_pair_of("suppliers", &rows),
        Err(DbError::InvalidJunction(t)) if t == "suppliers"
    ));
    let one = vec![info_row("only")];
    assert!(matches!(junction_pair_of("tasks", &one), Err(DbError::InvalidJunction(_))));
}

#[test]
fn metadata_without_a_text_name_column_is_an_engine_error() {
    let rows = vec![
        info_row("good"),
        vec![("cid".to_string(), SqlVal::Int(1)), ("name".to_string(), SqlVal::Int(7))],
    ];
    assert!(matches!(junction_pair_of("tasks", &rows), Err(DbError::Engine(_))));
}

#[test]
fn the_other_column_is_the_one_the_caller_did_not_name() {
    assert_eq!(other_column("j", "a", "a", "b").expect("other"), "b");
    assert_eq!(other_column("j", "b", "a", "b").expect("other"), "a");
    assert!(matches!(
        other_column("j", "c", "a", "b"),
        Err(DbError::ColumnNotInJunction(t, c)) if t == "j" && c == "c"
    ));
    assert!(matches!(
        other_column("j", "a", "a", "a"),
        Err(DbError::InvalidJunction(t)) if t == "j"
    ));
}
