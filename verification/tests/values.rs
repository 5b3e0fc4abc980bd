use dbgate::builder::Filter;
use dbgate::err::DbError;
use dbgate::gateway::{coerce_params, db_aggregate};
use dbgate::ops::{db_get_by_id, db_insert, db_query};
use dbgate::value::{json_to_sql, sql_to_json, JsonVal, SqlVal};

fn setup() -> rusqlite::Connection {
    let conn = rusqlite::Connection::open_in_memory().expect("open in-memory db");
    conn.execute_batch(
        "CREATE TABLE meetings (id TEXT PRIMARY KEY, notes BLOB, score REAL, updated_at TEXT);",
    )
    .expect("schema");
    conn
}

fn num(x: f64) -> serde_json::Number {
    serde_json::Number::from_f64(x).expect("finite")
}

#[test]
fn coercion_is_total_and_order_independent() {
    assert_eq!(json_to_sql(&JsonVal::Null), SqlVal::Null);
    assert_eq!(json_to_sql(&JsonVal::Bool(false)), SqlVal::Int(0));
    assert_eq!(json_to_sql(&JsonVal::Bool(true)), SqlVal::Int(1));
    assert_eq!(json_to_sql(&JsonVal::Int(-7)), SqlVal::Int(-7));
    assert_eq!(json_to_sql(&JsonVal::Float(num(1.5))), SqlVal::Real(num(1.5)));
    assert_eq!(
        json_to_sql(&JsonVal::Text("verbatim".to_string())),
        SqlVal::Text("verbatim".to_string())
    );
}

#[test]
fn composite_values_are_stored_as_their_canonical_serialization() {
    let arr = JsonVal::Arr(vec![JsonVal::Int(1), JsonVal::Int(2)]);
    assert_eq!(json_to_sql(&arr), SqlVal::Text("[1,2]".to_string()));
    let obj = JsonVal::Obj(vec![
        ("a".to_string(), JsonVal::Int(1)),
        ("b".to_string(), JsonVal::Text("x".to_string())),
    ]);
    assert_eq!(json_to_sql(&obj), SqlVal::Text(r#"{"a":1,"b":"x"}"#.to_string()));
}

#[test]
fn blobs_materialize_as_a_placeholder_with_the_byte_length() {
    assert_eq!(
        sql_to_json(&SqlVal::Blob(vec![1, 2, 3])),
        JsonVal::Text("[blob 3 bytes]".to_string())
    );
    assert_eq!(sql_to_json(&SqlVal::Blob(vec![])), JsonVal::Text("[blob 0 bytes]".to_string()));
    assert_eq!(
        sql_to_json(&SqlVal::Blob(vec![0u8; 1234])),
        JsonVal::Text("[blob 1234 bytes]".to_string())
    );
}

#[test]
fn scalars_materialize_unchanged() {
    assert_eq!(sql_to_json(&SqlVal::Null), JsonVal::Null);
    assert_eq!(sql_to_json(&SqlVal::Int(42)), JsonVal::Int(42));
    assert_eq!(sql_to_json(&SqlVal::Real(num(2.25))), JsonVal::Float(num(2.25)));
    assert_eq!(sql_to_json(&SqlVal::Text("t".to_string())), JsonVal::Text("t".to_string()));
}

#[test]
fn a_stored_blob_reads_back_as_a_placeholder() {
    let conn = setup();
    conn.execute(
        "INSERT INTO meetings (id, notes) VALUES (?1, ?2)",
        ("m1", &b"abc"[..]),
    )
    .expect("raw insert");
    let rec = db_get_by_id(&conn, "meetings", "m1").expect("get").expect("found");
    assert!(rec
        .iter()
        .any(|(k, v)| k == "notes" && *v == JsonVal::Text("[blob 3 bytes]".to_string())));
}

#[test]
fn a_floating_point_value_survives_the_round_trip() {
    let conn = setup();
    let payload = JsonVal::Obj(vec![("score".to_string(), JsonVal::Float(num(1.5)))]);
    let id = db_insert(&conn, "meetings", &payload).expect("insert");
    let rec = db_get_by_id(&conn, "meetings", &id).expect("get").expect("found");
    assert!(rec.iter().any(|(k, v)| k == "score" && *v == JsonVal::Float(num(1.5))));
}

#[test]
fn a_negative_limit_renders_as_a_literal_and_means_no_limit() {
    let conn = setup();
    for i in 0..3 {
        let payload = JsonVal::Obj(vec![("score".to_string(), JsonVal::Int(i))]);
        db_insert(&conn, "meetings", &payload).expect("insert");
    }
    let f = Some(Filter { clauses: vec![], limit: Some(-1), offset: None });
    assert_eq!(db_query(&conn, "meetings", &f, &None).expect("q").len(), 3);
}

#[test]
fn aggregate_materializes_expression_columns() {
    let conn = setup();
    let rows = db_aggregate(&conn, "SELECT 1.5 AS half, 'txt' AS t, x'0102' AS b", &None)
        .expect("aggregate");
    let rec = &rows[0];
    assert!(rec.iter().any(|(k, v)| k == "half" && *v == JsonVal::Float(num(1.5))));
    assert!(rec.iter().any(|(k, v)| k == "t" && *v == JsonVal::Text("txt".to_string())));
    assert!(rec
        .iter()
        .any(|(k, v)| k == "b" && *v == JsonVal::Text("[blob 2 bytes]".to_string())));
}

#[test]
fn error_messages_name_what_was_rejected() {
    assert_eq!(
        DbError::ForbiddenTable("users".to_string()).message(),
        "table not allowed: users"
    );
    assert_eq!(
        DbError::InvalidColumn("a b".to_string()).message(),
        "invalid column name: a b"
    );
    assert_eq!(
        DbError::ColumnNotInJunction("client_projects".to_string(), "x".to_string()).message(),
        "junction table client_projects has no column x"
    );
}

#[test]
fn aggregate_bind_values_are_coerced_in_the_callers_order() {
    let params = Some(vec![
        JsonVal::Bool(true),
        JsonVal::Text("x".to_string()),
        JsonVal::Null,
        JsonVal::Int(9),
    ]);
    let bound = coerce_params(&params);
    assert_eq!(
        bound,
        vec![SqlVal::Int(1), SqlVal::Text("x".to_string()), SqlVal::Null, SqlVal::Int(9)]
    );
    assert_eq!(coerce_params(&None).len(), 0);
}
