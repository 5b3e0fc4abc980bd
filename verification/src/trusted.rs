use vstd::prelude::*;
use crate::value::{JsonVal, SqlVal};

verus! {

#[verifier::external_type_specification]
#[verifier::external_body]
pub struct ExConnection(rusqlite::Connection);

#[verifier::external_type_specification]
#[verifier::external_body]
pub struct ExSqliteValue(rusqlite::types::Value);

#[verifier::external_type_specification]
#[verifier::external_body]
pub struct ExJsonValue(serde_json::Value);

#[verifier::external_type_specification]
#[verifier::external_body]
pub struct ExJsonNumber(serde_json::Number);

/// Relies on serde_json's Clone for Number: the copy is the same number.
pub assume_specification[ <serde_json::Number as Clone>::clone ](n: &serde_json::Number) -> (r:
    serde_json::Number)
    ensures
        r == *n,
;

/// The compact JSON text that serde_json prints for a value; a function of
/// the value alone.
pub uninterp spec fn compact_text_of(v: JsonVal) -> Seq<char>;

/// The pretty-printed JSON text that serde_json prints for a value; a
/// function of the value alone.
pub uninterp spec fn pretty_text_of(v: JsonVal) -> Seq<char>;

/// The value that parsing a JSON text yields, or nothing when the text is
/// not well-formed JSON; a function of the text alone.
pub uninterp spec fn json_doc_of(s: Seq<char>) -> Option<JsonVal>;

/// Converts a library value into the equivalent serde_json value.
#[verifier::external_body]
fn jv_to_value(v: &JsonVal) -> serde_json::Value {
    match v {
        JsonVal::Null => serde_json::Value::Null,
        JsonVal::Bool(b) => serde_json::Value::Bool(*b),
        JsonVal::Int(i) => serde_json::Value::Number((*i).into()),
        JsonVal::Float(n) => serde_json::Value::Number(n.clone()),
        JsonVal::Text(s) => serde_json::Value::String(s.clone()),
        JsonVal::Arr(a) => serde_json::Value::Array(a.iter().map(jv_to_value).collect()),
        JsonVal::Obj(o) => serde_json::Value::Object(
            o.iter().map(|p| (p.0.clone(), jv_to_value(&p.1))).collect(),
        ),
    }
}

/// Converts a serde_json value into the equivalent library value, splitting
/// numbers the way the store holds them: integral as integer, anything else
/// as an opaque number.
#[verifier::external_body]
fn value_to_jv(v: serde_json::Value) -> JsonVal {
    match v {
        serde_json::Value::Null => JsonVal::Null,
        serde_json::Value::Bool(b) => JsonVal::Bool(b),
        serde_json::Value::Number(n) => match n.as_i64() {
            Some(i) => JsonVal::Int(i),
            None => JsonVal::Float(n),
        },
        serde_json::Value::String(s) => JsonVal::Text(s),
        serde_json::Value::Array(a) => JsonVal::Arr(a.into_iter().map(value_to_jv).collect()),
        serde_json::Value::Object(o) => JsonVal::Obj(
            o.into_iter().map(|p| (p.0, value_to_jv(p.1))).collect(),
        ),
    }
}

/// Relies on serde_json::to_string: the compact serialization of a value,
/// which depends on the value alone.
#[verifier::external_body]
pub fn to_compact_text(v: &JsonVal) -> (r: String)
    ensures
        r@ == compact_text_of(*v),
{
    serde_json::to_string(&jv_to_value(v)).unwrap_or_default()
}

/// Relies on serde_json::to_string_pretty: the pretty-printed serialization
/// of a value, which depends on the value alone.
#[verifier::external_body]
pub fn to_pretty_text(v: &JsonVal) -> (r: String)
    ensures
        r@ == pretty_text_of(*v),
{
    serde_json::to_string_pretty(&jv_to_value(v)).unwrap_or_default()
}

/// Relies on serde_json::from_str: whether a text parses, and to which
/// value, depends on the text alone.
#[verifier::external_body]
pub fn parse_json(text: &str) -> (r: Result<JsonVal, String>)
    ensures
        r is Ok <==> json_doc_of(text@) is Some,
        r matches Ok(v) ==> json_doc_of(text@) == Some(v),
{
    match serde_json::from_str::<serde_json::Value>(text) {
        Ok(v) => Ok(value_to_jv(v)),
        Err(e) => Err(e.to_string()),
    }
}

/// Converts a library scalar into the rusqlite value it is bound as.
#[verifier::external_body]
fn to_rv(v: &SqlVal) -> rusqlite::types::Value {
    match v {
        SqlVal::Null => rusqlite::types::Value::Null,
        SqlVal::Int(i) => rusqlite::types::Value::Integer(*i),
        SqlVal::Real(n) => rusqlite::types::Value::Real(n.as_f64().unwrap_or_default()),
        SqlVal::Text(s) => rusqlite::types::Value::Text(s.clone()),
        SqlVal::Blob(b) => rusqlite::types::Value::Blob(b.clone()),
    }
}

/// Converts a rusqlite value into the library scalar that stands for it;
/// a floating-point value that no JSON number can represent (a NaN or an
/// infinity) becomes null rather than failing.
#[verifier::external_body]
fn from_rv(v: rusqlite::types::Value) -> SqlVal {
    match v {
        rusqlite::types::Value::Null => SqlVal::Null,
        rusqlite::types::Value::Integer(i) => SqlVal::Int(i),
        rusqlite::types::Value::Real(x) => match serde_json::Number::from_f64(x) {
            Some(n) => SqlVal::Real(n),
            None => SqlVal::Null,
        },
        rusqlite::types::Value::Text(s) => SqlVal::Text(s),
        rusqlite::types::Value::Blob(b) => SqlVal::Blob(b),
    }
}

/// Relies on rusqlite's Connection::prepare and Statement::query_map: runs
/// one SQL statement with positionally bound parameters and hands back every
/// row as column-name/scalar pairs in column order. What comes back depends
/// on the state of the database, so nothing is promised of it.
#[verifier::external_body]
pub(crate) fn run_query(
    conn: &rusqlite::Connection,
    sql: &str,
    params: &Vec<SqlVal>,
) -> Result<Vec<Vec<(String, SqlVal)>>, String> {
    let mut stmt = conn.prepare(sql).map_err(|e| e.to_string())?;
    let names: Vec<String> = stmt.column_names().iter().map(|s| s.to_string()).collect();
    let mapped = stmt
        .query_map(rusqlite::params_from_iter(params.iter().map(to_rv)), |row| {
            let mut rec = Vec::new();
            for (i, n) in names.iter().enumerate() {
                rec.push((n.clone(), from_rv(row.get(i)?)));
            }
            Ok(rec)
        })
        .map_err(|e| e.to_string())?;
    let rows: Result<Vec<_>, rusqlite::Error> = mapped.collect();
    rows.map_err(|e| e.to_string())
}

/// Relies on rusqlite's Connection::execute: runs one SQL statement with
/// positionally bound parameters. Success depends on the database, so
/// nothing is promised of the outcome.
#[verifier::external_body]
pub(crate) fn run_execute(
    conn: &rusqlite::Connection,
    sql: &str,
    params: &Vec<SqlVal>,
) -> Result<usize, String> {
    conn.execute(sql, rusqlite::params_from_iter(params.iter().map(to_rv)))
        .map_err(|e| e.to_string())
}

/// Relies on rusqlite's Connection::execute_batch: runs statements that take
/// no parameters and return no rows.
#[verifier::external_body]
pub(crate) fn run_batch(conn: &rusqlite::Connection, sql: &str) -> Result<(), String> {
    conn.execute_batch(sql).map_err(|e| e.to_string())
}

/// Relies on rusqlite's Statement::readonly, which reports whether the
/// prepared statement could write the database; the engine decides, so
/// nothing is promised of the answer.
#[verifier::external_body]
pub(crate) fn stmt_readonly(conn: &rusqlite::Connection, sql: &str) -> Result<bool, String> {
    let stmt = conn.prepare(sql).map_err(|e| e.to_string())?;
    Ok(stmt.readonly())
}

/// Relies on uuid's Uuid::new_v4 and its hyphenated rendering: a fresh
/// random identifier, always 36 characters. Distinctness from earlier
/// identifiers is overwhelmingly likely but not guaranteed, so it is not
/// promised.
#[verifier::external_body]
pub(crate) fn new_uuid() -> (r: String)
    ensures
        r@.len() == 36,
{
    uuid::Uuid::new_v4().to_string()
}

} // verus!
