use vstd::prelude::*;
use crate::builder::{
    build_delete, build_get_by_id, build_insert, build_link, build_linked, build_pragma_info,
    build_select, build_unlink, build_update, fields_err, select_err, Filter, Sort,
};
use crate::err::{concat_msg, DbError, GErr};
use crate::ident::{str_eq, table_allowed, valid_column_name, validate_column, validate_table};
use crate::trusted::{new_uuid, run_execute, run_query};
use crate::value::{materialize_rows, row_materialized, rows_materialized, GSqlVal, JsonVal, SqlVal};

verus! {

/// A record as the caller sees it: column names and external values in
/// column order.
pub type Record = Vec<(String, JsonVal)>;

/// Whether a result set is the materialization of some raw result set.
pub open spec fn some_materialization(recs: Seq<Seq<(String, JsonVal)>>) -> bool {
    exists|raw: Seq<Seq<(String, SqlVal)>>| rows_materialized(raw, recs)
}

/// Runs a query and materializes every returned row into a record. Whatever
/// comes back from storage, the result is the row-by-row materialization of
/// it; a storage failure surfaces as an engine error.
pub fn rows_to_json(conn: &rusqlite::Connection, sql: &str, params: &Vec<SqlVal>) -> (r: Result<
    Vec<Record>,
    DbError,
>)
    ensures
        r matches Err(e) ==> e@ matches GErr::Engine(_),
        r matches Ok(recs) ==> some_materialization(recs@.map_values(|x: Record| x@)),
{
    match run_query(conn, sql, params) {
        Ok(rows) => {
            let recs = materialize_rows(&rows);
            proof {
                assert(rows_materialized(
                    rows@.map_values(|x: Vec<(String, SqlVal)>| x@),
                    recs@.map_values(|x: Record| x@),
                ));
            }
            Ok(recs)
        },
        Err(m) => Err(DbError::Engine(m)),
    }
}

/// Lists records: validates the table against the catalog and every clause
/// of the filter, builds the SELECT, and materializes the result. Exactly
/// the first validation failure is reported; once validation passes, the
/// only possible failure is an engine error.
pub fn db_query(
    conn: &rusqlite::Connection,
    table: &str,
    filter: &Option<Filter>,
    sort: &Option<Sort>,
) -> (r: Result<Vec<Record>, DbError>)
    ensures
        match select_err(table@, *filter, *sort) {
            Some(e) => r matches Err(er) && er@ == e,
            None => r matches Err(er) ==> er@ matches GErr::Engine(_),
        },
        r matches Ok(recs) ==> some_materialization(recs@.map_values(|x: Record| x@)),
{
    match build_select(table, filter, sort) {
        Err(e) => Err(e),
        Ok((sql, params)) => rows_to_json(conn, sql.as_str(), &params),
    }
}

/// Whether a record is the materialization of some raw row.
pub open spec fn some_row_materialization(rec: Seq<(String, JsonVal)>) -> bool {
    exists|raw: Seq<(String, SqlVal)>| row_materialized(raw, rec)
}

/// Fetches at most one record by identifier. Any name outside the catalog
/// fails with a forbidden-table error before storage is touched; absence of
/// a matching row is a valid outcome, not an error; a returned record is the
/// materialization of a stored row.
pub fn db_get_by_id(conn: &rusqlite::Connection, table: &str, id: &str) -> (r: Result<
    Option<Record>,
    DbError,
>)
    ensures
        !table_allowed(table@) ==> (r matches Err(e) && e@ == GErr::ForbiddenTable(table@)),
        table_allowed(table@) ==> (r matches Err(e) ==> e@ matches GErr::Engine(_)),
        r matches Ok(Some(rec)) ==> some_row_materialization(rec@),
{
    if let Err(e) = validate_table(table) {
        return Err(e);
    }
    let sql = build_get_by_id(table);
    let mut params: Vec<SqlVal> = Vec::new();
    params.push(SqlVal::Text(id.to_owned()));
    match rows_to_json(conn, sql.as_str(), &params) {
        Err(e) => Err(e),
        Ok(mut recs) => {
            let ghost m = recs@.map_values(|x: Record| x@);
            let popped = recs.pop();
            proof {
                if m.len() > 0 {
                    let raw = choose|raw: Seq<Seq<(String, SqlVal)>>| rows_materialized(raw, m);
                    assert(row_materialized(raw[m.len() - 1], m[m.len() - 1]));
                }
            }
            Ok(popped)
        },
    }
}

/// Inserts one record. The payload must be an object and every key a valid
/// column name; a fresh identifier is always generated, never taken from
/// the caller, and is returned on success.
pub fn db_insert(conn: &rusqlite::Connection, table: &str, data: &JsonVal) -> (r: Result<
    String,
    DbError,
>)
    ensures
        !table_allowed(table@) ==> (r matches Err(e) && e@ == GErr::ForbiddenTable(table@)),
        table_allowed(table@) && !(data matches JsonVal::Obj(_)) ==> (r matches Err(e) && e@
            == GErr::NotAnObject),
        table_allowed(table@) ==> (data matches JsonVal::Obj(fs) ==> match fields_err(fs@) {
            Some(e) => r matches Err(er) && er@ == e,
            None => (r matches Ok(id) ==> id@.len() == 36) && (r matches Err(er) ==> er@ matches
                GErr::Engine(_)),
        }),
{
    if let Err(e) = validate_table(table) {
        return Err(e);
    }
    let fields = match data {
        JsonVal::Obj(fs) => fs,
        _ => {
            return Err(DbError::NotAnObject);
        },
    };
    let id = new_uuid();
    match build_insert(table, id.as_str(), fields) {
        Err(e) => Err(e),
        Ok((sql, params)) => match run_execute(conn, sql.as_str(), &params) {
            Ok(_) => Ok(id),
            Err(m) => Err(DbError::Engine(concat_msg("insert failed: ", m.as_str()))),
        },
    }
}

/// Updates one record by identifier: every payload key is set, and the
/// modification timestamp is always set to the current time. Matching no
/// row is a valid outcome, not an error.
pub fn db_update(conn: &rusqlite::Connection, table: &str, id: &str, data: &JsonVal) -> (r: Result<
    (),
    DbError,
>)
    ensures
        !table_allowed(table@) ==> (r matches Err(e) && e@ == GErr::ForbiddenTable(table@)),
        table_allowed(table@) && !(data matches JsonVal::Obj(_)) ==> (r matches Err(e) && e@
            == GErr::NotAnObject),
        table_allowed(table@) ==> (data matches JsonVal::Obj(fs) ==> match fields_err(fs@) {
            Some(e) => r matches Err(er) && er@ == e,
            None => r matches Err(er) ==> er@ matches GErr::Engine(_),
        }),
{
    if let Err(e) = validate_table(table) {
        return Err(e);
    }
    let fields = match data {
        JsonVal::Obj(fs) => fs,
        _ => {
            return Err(DbError::NotAnObject);
        },
    };
    match build_update(table, id, fields) {
        Err(e) => Err(e),
        Ok((sql, params)) => match run_execute(conn, sql.as_str(), &params) {
            Ok(_) => Ok(()),
            Err(m) => Err(DbError::Engine(concat_msg("update failed: ", m.as_str()))),
        },
    }
}

/// Deletes one record by identifier; deleting a missing identifier is a
/// valid outcome, not an error.
pub fn db_delete(conn: &rusqlite::Connection, table: &str, id: &str) -> (r: Result<(), DbError>)
    ensures
        !table_allowed(table@) ==> (r matches Err(e) && e@ == GErr::ForbiddenTable(table@)),
        table_allowed(table@) ==> (r matches Err(e) ==> e@ matches GErr::Engine(_)),
{
    if let Err(e) = validate_table(table) {
        return Err(e);
    }
    let sql = build_delete(table);
    let mut params: Vec<SqlVal> = Vec::new();
    params.push(SqlVal::Text(id.to_owned()));
    match run_execute(conn, sql.as_str(), &params) {
        Ok(_) => Ok(()),
        Err(m) => Err(DbError::Engine(concat_msg("delete failed: ", m.as_str()))),
    }
}

/// The value of a row's `name` column, when the row has one and it is text.
pub open spec fn name_field(row: Seq<(String, SqlVal)>) -> Option<Seq<char>>
    decreases row.len(),
{
    if row.len() == 0 {
        None
    } else if row[0].0@ == "name"@ {
        match row[0].1@ {
            GSqlVal::Text(s) => Some(s),
            _ => None,
        }
    } else {
        name_field(row.drop_first())
    }
}

proof fn lemma_name_field_skip(row: Seq<(String, SqlVal)>, j: int)
    requires
        0 <= j <= row.len(),
        forall|k: int| 0 <= k < j ==> row[k].0@ != "name"@,
    ensures
        name_field(row) == name_field(row.skip(j)),
    decreases j,
{
    if j > 0 {
        assert(row.drop_first() =~= row.skip(1));
        lemma_name_field_skip(row.skip(1), j - 1);
        assert(row.skip(1).skip(j - 1) =~= row.skip(j));
    } else {
        assert(row.skip(0) =~= row);
    }
}

/// Extracts the `name` column of one metadata row.
fn row_name(row: &Vec<(String, SqlVal)>) -> (r: Option<String>)
    ensures
        match name_field(row@) {
            Some(s) => r matches Some(t) && t@ == s,
            None => r is None,
        },
{
    let mut j: usize = 0;
    while j < row.len()
        invariant
            j <= row@.len(),
            forall|k: int| 0 <= k < j ==> row@[k].0@ != "name"@,
        decreases row@.len() - j,
    {
        if str_eq(row[j].0.as_str(), "name") {
            proof {
                lemma_name_field_skip(row@, j as int);
                assert(row@.skip(j as int)[0] == row@[j as int]);
            }
            match &row[j].1 {
                SqlVal::Text(s) => {
                    return Some(s.clone());
                },
                _ => {
                    return None;
                },
            }
        }
        j += 1;
    }
    proof {
        lemma_name_field_skip(row@, row@.len() as int);
        assert(row@.skip(row@.len() as int) =~= Seq::<(String, SqlVal)>::empty());
    }
    None
}

/// Extracts every metadata row's `name` column, or reports the metadata as
/// malformed.
fn info_names(rows: &Vec<Vec<(String, SqlVal)>>) -> (r: Result<Vec<String>, DbError>)
    ensures
        r is Ok <==> (forall|i: int|
            0 <= i < rows@.len() ==> name_field(rows@[i]@) is Some),
        r matches Ok(ns) ==> ns@.len() == rows@.len() && (forall|i: int|
            0 <= i < rows@.len() ==> name_field(rows@[i]@) == Some(ns@[i]@)),
        r matches Err(e) ==> e@ == GErr::Engine("unexpected table metadata shape"@),
{
    let mut out: Vec<String> = Vec::new();
    let mut i: usize = 0;
    while i < rows.len()
        invariant
            i <= rows@.len(),
            out@.len() == i,
            forall|k: int| 0 <= k < i ==> name_field(rows@[k]@) == Some(out@[k]@),
        decreases rows@.len() - i,
    {
        match row_name(&rows[i]) {
            Some(n) => {
                out.push(n);
            },
            None => {
                return Err(DbError::Engine("unexpected table metadata shape".to_owned()));
            },
        }
        i += 1;
    }
    Ok(out)
}

/// What a junction's metadata rows decide: malformed metadata is an engine
/// error, anything but exactly two columns an invalid junction, and the
/// discovered pair is the two rows' names in row order.
pub open spec fn junction_pair(table: Seq<char>, rows: Seq<Seq<(String, SqlVal)>>) -> Result<
    (Seq<char>, Seq<char>),
    GErr,
> {
    if !(forall|i: int| 0 <= i < rows.len() ==> name_field(rows[i]) is Some) {
        Err(GErr::Engine("unexpected table metadata shape"@))
    } else if rows.len() != 2 {
        Err(GErr::InvalidJunction(table))
    } else {
        match (name_field(rows[0]), name_field(rows[1])) {
            (Some(a), Some(b)) => Ok((a, b)),
            _ => Err(GErr::Engine("unexpected table metadata shape"@)),
        }
    }
}

/// Decides the junction pair from the metadata rows exactly as
/// `junction_pair` says.
pub fn junction_pair_of(table: &str, rows: &Vec<Vec<(String, SqlVal)>>) -> (r: Result<
    (String, String),
    DbError,
>)
    ensures
        match junction_pair(table@, rows@.map_values(|x: Vec<(String, SqlVal)>| x@)) {
            Err(e) => r matches Err(er) && er@ == e,
            Ok(p) => r matches Ok(q) && q.0@ == p.0 && q.1@ == p.1,
        },
{
    let ghost rv = rows@.map_values(|x: Vec<(String, SqlVal)>| x@);
    proof {
        assert(forall|i: int| 0 <= i < rv.len() ==> #[trigger] rv[i] == rows@[i]@);
    }
    let names = match info_names(rows) {
        Ok(ns) => ns,
        Err(e) => {
            proof {
                if forall|i: int| 0 <= i < rv.len() ==> name_field(#[trigger] rv[i]) is Some {
                    assert forall|i: int| 0 <= i < rows@.len() implies name_field(
                        rows@[i]@,
                    ) is Some by {
                        assert(name_field(rv[i]) is Some);
                    }
                }
                assert(!(forall|i: int| 0 <= i < rv.len() ==> name_field(#[trigger] rv[i]) is Some));
            }
            return Err(e);
        },
    };
    proof {
        assert forall|i: int| 0 <= i < rv.len() implies name_field(#[trigger] rv[i]) is Some by {
            assert(name_field(rows@[i]@) is Some);
        }
    }
    if names.len() != 2 {
        return Err(DbError::InvalidJunction(table.to_owned()));
    }
    proof {
        assert(name_field(rv[0]) == Some(names@[0]@));
        assert(name_field(rv[1]) == Some(names@[1]@));
    }
    Ok((names[0].clone(), names[1].clone()))
}

/// Discovers a junction table's two column names from its own metadata,
/// fresh on every call: the pair returned is exactly what `junction_pair`
/// decides, in row order, on the metadata the engine handed back; any table
/// that does not expose exactly two columns is rejected as an invalid
/// junction.
pub fn get_junction_columns(conn: &rusqlite::Connection, table: &str) -> (r: Result<
    (String, String),
    DbError,
>)
    requires
        table_allowed(table@),
    ensures
        r matches Err(e) ==> (e@ matches GErr::Engine(_) || e@ == GErr::InvalidJunction(table@)),
        r matches Ok(p) ==> exists|rows: Seq<Seq<(String, SqlVal)>>|
            #[trigger] junction_pair(table@, rows) matches Ok(q) && q.0 == p.0@ && q.1 == p.1@,
{
    let sql = build_pragma_info(table);
    let empty: Vec<SqlVal> = Vec::new();
    let rows = match run_query(conn, sql.as_str(), &empty) {
        Ok(rows) => rows,
        Err(m) => {
            return Err(DbError::Engine(m));
        },
    };
    let ghost rv = rows@.map_values(|x: Vec<(String, SqlVal)>| x@);
    match junction_pair_of(table, &rows) {
        Ok(p) => {
            proof {
                assert(junction_pair(table@, rv) matches Ok(q) && q.0 == p.0@ && q.1 == p.1@);
            }
            Ok(p)
        },
        Err(e) => Err(e),
    }
}

/// Links two identifiers in a junction table, discovering its columns at
/// call time; linking an already linked pair is ignored, which makes the
/// operation idempotent.
pub fn db_link(conn: &rusqlite::Connection, junction: &str, left_id: &str, right_id: &str) -> (r:
    Result<(), DbError>)
    ensures
        !table_allowed(junction@) ==> (r matches Err(e) && e@ == GErr::ForbiddenTable(junction@)),
        table_allowed(junction@) ==> (r matches Err(e) ==> (e@ matches GErr::Engine(_) || e@
            == GErr::InvalidJunction(junction@))),
{
    if let Err(e) = validate_table(junction) {
        return Err(e);
    }
    let (c0, c1) = match get_junction_columns(conn, junction) {
        Ok(p) => p,
        Err(e) => {
            return Err(e);
        },
    };
    let sql = build_link(junction, c0.as_str(), c1.as_str());
    let mut params: Vec<SqlVal> = Vec::new();
    params.push(SqlVal::Text(left_id.to_owned()));
    params.push(SqlVal::Text(right_id.to_owned()));
    match run_execute(conn, sql.as_str(), &params) {
        Ok(_) => Ok(()),
        Err(m) => Err(DbError::Engine(concat_msg("link failed: ", m.as_str()))),
    }
}

/// Unlinks two identifiers, matching the pair exactly on both discovered
/// columns; a missing pair is a valid outcome, not an error.
pub fn db_unlink(conn: &rusqlite::Connection, junction: &str, left_id: &str, right_id: &str) -> (r:
    Result<(), DbError>)
    ensures
        !table_allowed(junction@) ==> (r matches Err(e) && e@ == GErr::ForbiddenTable(junction@)),
        table_allowed(junction@) ==> (r matches Err(e) ==> (e@ matches GErr::Engine(_) || e@
            == GErr::InvalidJunction(junction@))),
{
    if let Err(e) = validate_table(junction) {
        return Err(e);
    }
    let (c0, c1) = match get_junction_columns(conn, junction) {
        Ok(p) => p,
        Err(e) => {
            return Err(e);
        },
    };
    let sql = build_unlink(junction, c0.as_str(), c1.as_str());
    let mut params: Vec<SqlVal> = Vec::new();
    params.push(SqlVal::Text(left_id.to_owned()));
    params.push(SqlVal::Text(right_id.to_owned()));
    match run_execute(conn, sql.as_str(), &params) {
        Ok(_) => Ok(()),
        Err(m) => Err(DbError::Engine(concat_msg("unlink failed: ", m.as_str()))),
    }
}

/// The text in a row's first column, when the row has one and it is text.
pub open spec fn first_text(row: Seq<(String, SqlVal)>) -> Option<Seq<char>> {
    if row.len() > 0 {
        match row[0].1@ {
            GSqlVal::Text(s) => Some(s),
            _ => None,
        }
    } else {
        None
    }
}

/// Extracts every row's first column as text, or reports the result shape
/// as unexpected.
fn first_texts(rows: &Vec<Vec<(String, SqlVal)>>) -> (r: Result<Vec<String>, DbError>)
    ensures
        r is Ok <==> (forall|i: int|
            0 <= i < rows@.len() ==> first_text(rows@[i]@) is Some),
        r matches Ok(vs) ==> vs@.len() == rows@.len() && (forall|i: int|
            0 <= i < rows@.len() ==> first_text(rows@[i]@) == Some(vs@[i]@)),
        r matches Err(e) ==> e@ matches GErr::Engine(_),
{
    let mut out: Vec<String> = Vec::new();
    let mut i: usize = 0;
    while i < rows.len()
        invariant
            i <= rows@.len(),
            out@.len() == i,
            forall|k: int| 0 <= k < i ==> first_text(rows@[k]@) == Some(out@[k]@),
        decreases rows@.len() - i,
    {
        let row = &rows[i];
        if row.len() == 0 {
            return Err(DbError::Engine("unexpected result shape".to_owned()));
        }
        match &row[0].1 {
            SqlVal::Text(s) => {
                out.push(s.clone());
            },
            _ => {
                return Err(DbError::Engine("unexpected result shape".to_owned()));
            },
        }
        i += 1;
    }
    Ok(out)
}

/// Which column a linked lookup selects, given the caller's column and the
/// discovered pair: the first of the pair the caller did not name; a column
/// outside the pair is rejected, and a pair that offers no other column is
/// no usable junction.
pub open spec fn other_col_spec(j: Seq<char>, col: Seq<char>, c0: Seq<char>, c1: Seq<char>) -> Result<
    Seq<char>,
    GErr,
> {
    if col != c0 && col != c1 {
        Err(GErr::ColumnNotInJunction(j, col))
    } else if c0 != col {
        Ok(c0)
    } else if c1 != col {
        Ok(c1)
    } else {
        Err(GErr::InvalidJunction(j))
    }
}

/// Decides the selected column exactly as `other_col_spec` says.
pub fn other_column<'a>(junction: &str, column: &str, c0: &'a str, c1: &'a str) -> (r: Result<
    &'a str,
    DbError,
>)
    ensures
        match other_col_spec(junction@, column@, c0@, c1@) {
            Err(e) => r matches Err(er) && er@ == e,
            Ok(o) => r matches Ok(s) && s@ == o,
        },
{
    let m0 = str_eq(column, c0);
    let m1 = str_eq(column, c1);
    if !m0 && !m1 {
        return Err(DbError::ColumnNotInJunction(junction.to_owned(), column.to_owned()));
    }
    if !m0 {
        Ok(c0)
    } else if !m1 {
        Ok(c1)
    } else {
        Err(DbError::InvalidJunction(junction.to_owned()))
    }
}

/// The views of a list of owned texts.
pub open spec fn text_views(vs: Seq<String>) -> Seq<Seq<char>> {
    vs.map_values(|s: String| s@)
}

/// Whether a value list is exactly the first-column text of every raw row,
/// in row order.
pub open spec fn texts_extracted(rows: Seq<Seq<(String, SqlVal)>>, vs: Seq<Seq<char>>) -> bool {
    vs.len() == rows.len() && forall|i: int|
        0 <= i < rows.len() ==> first_text(#[trigger] rows[i]) == Some(vs[i])
}

/// Returns the identifiers linked to one identifier through a junction
/// table: the given column must be one of the junction's two discovered
/// columns (decided by `other_col_spec`), and the other column's values are
/// returned in storage order, duplicates kept if storage holds duplicates;
/// the returned list is exactly the extraction of the rows the engine
/// handed back.
pub fn db_get_linked(conn: &rusqlite::Connection, junction: &str, column: &str, id: &str) -> (r:
    Result<Vec<String>, DbError>)
    ensures
        !table_allowed(junction@) ==> (r matches Err(e) && e@ == GErr::ForbiddenTable(junction@)),
        table_allowed(junction@) && !valid_column_name(column@) ==> (r matches Err(e) && e@
            == GErr::InvalidColumn(column@)),
        table_allowed(junction@) && valid_column_name(column@) ==> (r matches Err(e) ==> (e@
            matches GErr::Engine(_) || e@ == GErr::InvalidJunction(junction@) || e@
            == GErr::ColumnNotInJunction(junction@, column@))),
        r matches Ok(vs) ==> exists|rows: Seq<Seq<(String, SqlVal)>>|
            #[trigger] texts_extracted(rows, text_views(vs@)),
{
    if let Err(e) = validate_table(junction) {
        return Err(e);
    }
    if let Err(e) = validate_column(column) {
        return Err(e);
    }
    let (c0, c1) = match get_junction_columns(conn, junction) {
        Ok(p) => p,
        Err(e) => {
            return Err(e);
        },
    };
    let other: &str = match other_column(junction, column, c0.as_str(), c1.as_str()) {
        Ok(o) => o,
        Err(e) => {
            return Err(e);
        },
    };
    let sql = build_linked(junction, column, other);
    let mut params: Vec<SqlVal> = Vec::new();
    params.push(SqlVal::Text(id.to_owned()));
    let rows = match run_query(conn, sql.as_str(), &params) {
        Ok(rows) => rows,
        Err(m) => {
            return Err(DbError::Engine(m));
        },
    };
    let ghost rv = rows@.map_values(|x: Vec<(String, SqlVal)>| x@);
    match first_texts(&rows) {
        Ok(vs) => {
            proof {
                assert forall|i: int| 0 <= i < rv.len() implies first_text(#[trigger] rv[i])
                    == Some(text_views(vs@)[i]) by {
                    assert(rv[i] == rows@[i]@);
                    assert(first_text(rows@[i]@) == Some(vs@[i]@));
                    assert(text_views(vs@)[i] == vs@[i]@);
                }
                assert(texts_extracted(rv, text_views(vs@)));
            }
            Ok(vs)
        },
        Err(e) => Err(e),
    }
}

} // verus!
