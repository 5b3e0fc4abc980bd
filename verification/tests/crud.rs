use dbgate::builder::{Filter, Sort, WhereClause};
use dbgate::err::DbError;
use dbgate::ops::{db_delete, db_get_by_id, db_insert, db_query, db_update};
use dbgate::value::JsonVal;

fn setup() -> rusqlite::Connection {
    let conn = rusqlite::Connection::open_in_memory().expect("open in-memory db");
    conn.execute_batch(
        "CREATE TABLE tasks (id TEXT PRIMARY KEY, title TEXT, done INTEGER, priority INTEGER, updated_at TEXT);",
    )
    .expect("schema");
    conn
}

fn field(rec: &Vec<(String, JsonVal)>, name: &str) -> JsonVal {
    for (k, v) in rec {
        if k == name {
            return v_clone(v);
        }
    }
    panic!("missing field {name}");
}

fn v_clone(v: &JsonVal) -> JsonVal {
    match v {
        JsonVal::Null => JsonVal::Null,
        JsonVal::Bool(b) => JsonVal::Bool(*b),
        JsonVal::Int(i) => JsonVal::Int(*i),
        JsonVal::Float(n) => JsonVal::Float(n.clone()),
        JsonVal::Text(s) => JsonVal::Text(s.clone()),
        JsonVal::Arr(a) => JsonVal::Arr(a.iter().map(v_clone).collect()),
        JsonVal::Obj(o) => JsonVal::Obj(o.iter().map(|p| (p.0.clone(), v_clone(&p.1))).collect()),
    }
}

fn task(title: &str, done: bool) -> JsonVal {
    JsonVal::Obj(vec![
        ("title".to_string(), JsonVal::Text(title.to_string())),
        ("done".to_string(), JsonVal::Bool(done)),
    ])
}

#[test]
fn insert_returns_fresh_distinct_ids_and_get_by_id_round_trips() {
    let conn = setup();
    let id1 = db_insert(&conn, "tasks", &task("one", false)).expect("insert");
    let id2 = db_insert(&conn, "tasks", &task("two", true)).expect("insert");
    assert_eq!(id1.len(), 36);
    assert_eq!(id2.len(), 36);
    assert_ne!(id1, id2);
    let rec = db_get_by_id(&conn, "tasks", &id1).expect("get").expect("found");
    assert_eq!(field(&rec, "id"), JsonVal::Text(id1.clone()));
    assert_eq!(field(&rec, "title"), JsonVal::Text("one".to_string()));
    // booleans are coerced to 0/1 integers on the way in
    assert_eq!(field(&rec, "done"), JsonVal::Int(0));
    let rec2 = db_get_by_id(&conn, "tasks", &id2).expect("get").expect("found");
    assert_eq!(field(&rec2, "done"), JsonVal::Int(1));
}

#[test]
fn get_by_id_of_a_missing_identifier_is_absence_not_an_error() {
    let conn = setup();
    let got = db_get_by_id(&conn, "tasks", "no-such-id").expect("get");
    assert!(got.is_none());
}

#[test]
fn insert_rejects_a_non_object_payload() {
    let conn = setup();
    assert!(matches!(db_insert(&conn, "tasks", &JsonVal::Int(5)), Err(DbError::NotAnObject)));
    assert!(matches!(
        db_update(&conn, "tasks", "x", &JsonVal::Arr(vec![])),
        Err(DbError::NotAnObject)
    ));
}

#[test]
fn insert_rejects_an_invalid_column_name() {
    let conn = setup();
    let bad = JsonVal::Obj(vec![("bad-col".to_string(), JsonVal::Int(1))]);
    assert!(matches!(
        db_insert(&conn, "tasks", &bad),
        Err(DbError::InvalidColumn(c)) if c == "bad-col"
    ));
}

#[test]
fn update_sets_a_newer_modification_timestamp_even_without_changes() {
    let conn = setup();
    let payload = JsonVal::Obj(vec![
        ("title".to_string(), JsonVal::Text("t".to_string())),
        ("updated_at".to_string(), JsonVal::Text("2000-01-01 00:00:00".to_string())),
    ]);
    let id = db_insert(&conn, "tasks", &payload).expect("insert");
    // An update with an empty payload still touches the timestamp.
    db_update(&conn, "tasks", &id, &JsonVal::Obj(vec![])).expect("update");
    let rec = db_get_by_id(&conn, "tasks", &id).expect("get").expect("found");
    match field(&rec, "updated_at") {
        JsonVal::Text(t) => assert!(t.as_str() > "2000-01-01 00:00:00", "got {t}"),
        other => panic!("unexpected {other:?}"),
    }
}

#[test]
fn update_of_a_missing_identifier_reports_success() {
    let conn = setup();
    db_update(&conn, "tasks", "ghost", &task("x", false)).expect("update");
}

#[test]
fn delete_removes_and_is_idempotent() {
    let conn = setup();
    let id = db_insert(&conn, "tasks", &task("gone", false)).expect("insert");
    db_delete(&conn, "tasks", &id).expect("delete");
    assert!(db_get_by_id(&conn, "tasks", &id).expect("get").is_none());
    db_delete(&conn, "tasks", &id).expect("second delete is not an error");
}

fn filter_with(clauses: Vec<WhereClause>) -> Option<Filter> {
    Some(Filter { clauses, limit: None, offset: None })
}

fn clause(column: &str, op: &str, value: JsonVal) -> WhereClause {
    WhereClause { column: column.to_string(), op: op.to_string(), value }
}

#[test]
fn in_with_an_empty_array_returns_zero_rows_not_an_error() {
    let conn = setup();
    db_insert(&conn, "tasks", &task("kept", false)).expect("insert");
    let f = filter_with(vec![clause("title", "IN", JsonVal::Arr(vec![]))]);
    let rows = db_query(&conn, "tasks", &f, &None).expect("query");
    assert_eq!(rows.len(), 0);
}

#[test]
fn in_with_values_matches_and_a_single_value_acts_as_one_element() {
    let conn = setup();
    db_insert(&conn, "tasks", &task("a", false)).expect("insert");
    db_insert(&conn, "tasks", &task("b", false)).expect("insert");
    db_insert(&conn, "tasks", &task("c", false)).expect("insert");
    let f = filter_with(vec![clause(
        "title",
        "IN",
        JsonVal::Arr(vec![
            JsonVal::Text("a".to_string()),
            JsonVal::Text("c".to_string()),
        ]),
    )]);
    assert_eq!(db_query(&conn, "tasks", &f, &None).expect("query").len(), 2);
    let single = filter_with(vec![clause("title", "IN", JsonVal::Text("b".to_string()))]);
    assert_eq!(db_query(&conn, "tasks", &single, &None).expect("query").len(), 1);
}

#[test]
fn filters_compare_and_like_and_combine_with_and() {
    let conn = setup();
    for (t, p) in [("alpha", 1i64), ("beta", 2), ("gamma", 3)] {
        let v = JsonVal::Obj(vec![
            ("title".to_string(), JsonVal::Text(t.to_string())),
            ("priority".to_string(), JsonVal::Int(p)),
        ]);
        db_insert(&conn, "tasks", &v).expect("insert");
    }
    let f = filter_with(vec![clause("priority", ">=", JsonVal::Int(2))]);
    assert_eq!(db_query(&conn, "tasks", &f, &None).expect("q").len(), 2);
    let f = filter_with(vec![clause("title", "LIKE", JsonVal::Text("%a".to_string()))]);
    assert_eq!(db_query(&conn, "tasks", &f, &None).expect("q").len(), 3);
    let f = filter_with(vec![
        clause("title", "LIKE", JsonVal::Text("%a".to_string())),
        clause("priority", "!=", JsonVal::Int(3)),
    ]);
    assert_eq!(db_query(&conn, "tasks", &f, &None).expect("q").len(), 2);
}

#[test]
fn unsupported_operators_and_bad_columns_are_rejected() {
    let conn = setup();
    let f = filter_with(vec![clause("title", "~", JsonVal::Int(1))]);
    assert!(matches!(
        db_query(&conn, "tasks", &f, &None),
        Err(DbError::UnsupportedOperator(o)) if o == "~"
    ));
    let f = filter_with(vec![clause("ti;tle", "=", JsonVal::Int(1))]);
    assert!(matches!(
        db_query(&conn, "tasks", &f, &None),
        Err(DbError::InvalidColumn(c)) if c == "ti;tle"
    ));
    let s = Some(Sort { column: Some("or;der".to_string()), direction: None });
    assert!(matches!(
        db_query(&conn, "tasks", &None, &s),
        Err(DbError::InvalidColumn(_))
    ));
}

#[test]
fn sort_limit_and_offset_shape_the_result() {
    let conn = setup();
    for t in ["b", "a", "c"] {
        db_insert(&conn, "tasks", &task(t, false)).expect("insert");
    }
    let asc = Some(Sort {
        column: Some("title".to_string()),
        direction: Some("ASC".to_string()),
    });
    let rows = db_query(&conn, "tasks", &None, &asc).expect("q");
    let titles: Vec<JsonVal> = rows.iter().map(|r| field(r, "title")).collect();
    assert_eq!(
        titles,
        vec![
            JsonVal::Text("a".to_string()),
            JsonVal::Text("b".to_string()),
            JsonVal::Text("c".to_string()),
        ]
    );
    // any other direction resolves to descending
    let desc = Some(Sort {
        column: Some("title".to_string()),
        direction: Some("sideways".to_string()),
    });
    let rows = db_query(&conn, "tasks", &None, &desc).expect("q");
    assert_eq!(field(&rows[0], "title"), JsonVal::Text("c".to_string()));
    let paged = Some(Filter { clauses: vec![], limit: Some(1), offset: Some(1) });
    let rows = db_query(&conn, "tasks", &paged, &asc).expect("q");
    assert_eq!(rows.len(), 1);
    assert_eq!(field(&rows[0], "title"), JsonVal::Text("b".to_string()));
}
