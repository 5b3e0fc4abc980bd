use dbgate::err::DbError;
use dbgate::gateway::{db_aggregate, sanitize_aggregate_sql};
use dbgate::value::JsonVal;

fn setup() -> rusqlite::Connection {
    let conn = rusqlite::Connection::open_in_memory().expect("open in-memory db");
    conn.execute_batch(
        "CREATE TABLE tasks (id TEXT PRIMARY KEY, title TEXT, priority INTEGER, updated_at TEXT); \
         INSERT INTO tasks (id, title, priority) VALUES ('t1', 'a', 1), ('t2', 'b', 2);",
    )
    .expect("schema");
    conn
}

#[test]
fn a_drop_statement_is_not_a_read_query() {
    let conn = setup();
    assert!(matches!(
        db_aggregate(&conn, "DROP TABLE tasks;", &None),
        Err(DbError::NotAReadQuery)
    ));
    // and the table is still there
    let rows = db_aggregate(&conn, "SELECT count(*) FROM tasks", &None).expect("count");
    assert_eq!(rows.len(), 1);
}

#[test]
fn stacked_statements_are_rejected() {
    let conn = setup();
    assert!(matches!(
        db_aggregate(&conn, "SELECT 1; DELETE FROM tasks;", &None),
        Err(DbError::MultipleStatements)
    ));
    assert_eq!(
        db_aggregate(&conn, "SELECT count(*) FROM tasks", &None).expect("count").len(),
        1
    );
}

#[test]
fn an_update_statement_is_not_a_read_query() {
    let conn = setup();
    assert!(matches!(
        db_aggregate(&conn, "UPDATE tasks SET priority=1", &None),
        Err(DbError::NotAReadQuery)
    ));
}

#[test]
fn a_write_behind_a_with_prefix_is_caught_by_the_engine_check() {
    let conn = setup();
    let q = "WITH x AS (SELECT 1) INSERT INTO tasks (id) SELECT 'zz' FROM x";
    assert!(matches!(db_aggregate(&conn, q, &None), Err(DbError::NotReadOnly)));
}

#[test]
fn a_plain_select_is_accepted_and_counts() {
    let conn = setup();
    let rows = db_aggregate(&conn, "SELECT count(*) FROM tasks", &None).expect("aggregate");
    assert_eq!(rows.len(), 1);
    let (name, val) = &rows[0][0];
    assert_eq!(name, "count(*)");
    assert_eq!(*val, JsonVal::Int(2));
}

#[test]
fn a_with_query_and_bound_values_work() {
    let conn = setup();
    let params = Some(vec![JsonVal::Int(1)]);
    let rows = db_aggregate(
        &conn,
        "with hot as (select * from tasks where priority > ?) select title from hot",
        &params,
    )
    .expect("aggregate");
    assert_eq!(rows.len(), 1);
    assert_eq!(rows[0][0].1, JsonVal::Text("b".to_string()));
}

#[test]
fn a_trailing_terminator_and_surrounding_whitespace_are_stripped() {
    let r = sanitize_aggregate_sql("  \t\n SELECT 1 ;  ").expect("sanitize");
    assert_eq!(r, "SELECT 1");
    assert!(matches!(
        sanitize_aggregate_sql("  select 1 ;; "),
        Err(DbError::MultipleStatements)
    ));
    assert!(matches!(sanitize_aggregate_sql("   "), Err(DbError::NotAReadQuery)));
    assert!(sanitize_aggregate_sql("sElEcT 1").is_ok());
    assert!(sanitize_aggregate_sql("With x as (select 1) select * from x").is_ok());
}

#[test]
fn unicode_whitespace_is_trimmed_like_ascii_whitespace() {
    let r = sanitize_aggregate_sql("\u{A0}\u{2003}select 2\u{0B}\u{3000};\u{2028}").expect("sanitize");
    assert_eq!(r, "select 2");
}
