use vstd::prelude::*;
use crate::builder::{build_replace, build_select_all, field_params, fields_err, replace_sql};
use crate::err::{concat_msg, DbError, GErr};
use crate::ident::{catalog_names, catalog_seq, lemma_catalog_names_allowed, table_allowed, table_in_catalog};
use crate::ops::{rows_to_json, Record};
use crate::trusted::{json_doc_of, parse_json, pretty_text_of, run_batch, run_execute, to_pretty_text};
use crate::value::{row_materialized, rows_materialized, views_of, GSqlVal, JsonVal, SqlVal};

verus! {

/// The statement one imported row plans to: nothing for an empty row, an
/// INSERT OR REPLACE for any other object, and a shape error otherwise.
pub open spec fn row_plan(table: Seq<char>, row: JsonVal) -> Result<
    Option<(Seq<char>, Seq<GSqlVal>)>,
    GErr,
> {
    match row {
        JsonVal::Obj(fields) => match fields_err(fields@) {
            Some(e) => Err(e),
            None => if fields@.len() == 0 {
                Ok(None)
            } else {
                Ok(Some((replace_sql(table, fields@), field_params(fields@))))
            },
        },
        _ => Err(GErr::RowNotAnObject),
    }
}

/// The statements one table's rows plan to, in row order, stopping at the
/// first failure.
pub open spec fn rows_plan(table: Seq<char>, rows: Seq<JsonVal>) -> Result<
    Seq<(Seq<char>, Seq<GSqlVal>)>,
    GErr,
>
    decreases rows.len(),
{
    if rows.len() == 0 {
        Ok(Seq::empty())
    } else {
        match rows_plan(table, rows.drop_last()) {
            Err(e) => Err(e),
            Ok(ss) => match row_plan(table, rows.last()) {
                Err(e) => Err(e),
                Ok(None) => Ok(ss),
                Ok(Some(st)) => Ok(ss.push(st)),
            },
        }
    }
}

/// The statements a whole document plans to: unknown top-level keys are
/// skipped, a recognized key must hold an array, and its rows are planned
/// in order.
pub open spec fn tables_plan(pairs: Seq<(String, JsonVal)>) -> Result<
    Seq<(Seq<char>, Seq<GSqlVal>)>,
    GErr,
>
    decreases pairs.len(),
{
    if pairs.len() == 0 {
        Ok(Seq::empty())
    } else {
        match tables_plan(pairs.drop_last()) {
            Err(e) => Err(e),
            Ok(ss) => if !table_allowed(pairs.last().0@) {
                Ok(ss)
            } else {
                match pairs.last().1 {
                    JsonVal::Arr(rs) => match rows_plan(pairs.last().0@, rs@) {
                        Err(e) => Err(e),
                        Ok(more) => Ok(ss + more),
                    },
                    _ => Err(GErr::NotAnArray(pairs.last().0@)),
                }
            },
        }
    }
}

/// What importing a document does before storage is touched: the root must
/// be an object, and its recognized tables plan to a statement list.
pub open spec fn import_plan(doc: JsonVal) -> Result<Seq<(Seq<char>, Seq<GSqlVal>)>, GErr> {
    match doc {
        JsonVal::Obj(pairs) => tables_plan(pairs@),
        _ => Err(GErr::NotAnObject),
    }
}

/// Whether executable statements carry exactly the planned text and scalars.
pub open spec fn stmts_match(
    stmts: Seq<(String, Vec<SqlVal>)>,
    ss: Seq<(Seq<char>, Seq<GSqlVal>)>,
) -> bool {
    stmts.len() == ss.len() && forall|i: int|
        0 <= i < ss.len() ==> stmts[i].0@ == ss[i].0 && views_of(stmts[i].1@) == ss[i].1
}

proof fn lemma_rows_plan_err_persists(table: Seq<char>, rows: Seq<JsonVal>, m: int, n: int)
    requires
        0 <= m <= n <= rows.len(),
        rows_plan(table, rows.take(m)) is Err,
    ensures
        rows_plan(table, rows.take(n)) == rows_plan(table, rows.take(m)),
    decreases n - m,
{
    if n > m {
        lemma_rows_plan_err_persists(table, rows, m, n - 1);
        assert(rows.take(n).drop_last() =~= rows.take(n - 1));
    } else {
        assert(rows.take(n) =~= rows.take(m));
    }
}

proof fn lemma_tables_plan_err_persists(pairs: Seq<(String, JsonVal)>, m: int, n: int)
    requires
        0 <= m <= n <= pairs.len(),
        tables_plan(pairs.take(m)) is Err,
    ensures
        tables_plan(pairs.take(n)) == tables_plan(pairs.take(m)),
    decreases n - m,
{
    if n > m {
        lemma_tables_plan_err_persists(pairs, m, n - 1);
        assert(pairs.take(n).drop_last() =~= pairs.take(n - 1));
    } else {
        assert(pairs.take(n) =~= pairs.take(m));
    }
}

/// Plans one recognized table's rows into executable statements, or
/// reports the first failing row.
fn plan_table(table: &str, rows: &Vec<JsonVal>) -> (r: Result<
    Vec<(String, Vec<SqlVal>)>,
    DbError,
>)
    requires
        table_allowed(table@),
    ensures
        match rows_plan(table@, rows@) {
            Err(e) => r matches Err(er) && er@ == e,
            Ok(ss) => r matches Ok(stmts) && stmts_match(stmts@, ss),
        },
{
    let ghost rs = rows@;
    let mut out: Vec<(String, Vec<SqlVal>)> = Vec::new();
    let mut j: usize = 0;
    while j < rows.len()
        invariant
            rs == rows@,
            j <= rs.len(),
            table_allowed(table@),
            rows_plan(table@, rs.take(j as int)) matches Ok(ss) && stmts_match(out@, ss),
        decreases rs.len() - j,
    {
        proof {
            assert(rs.take(j + 1).drop_last() =~= rs.take(j as int));
            assert(rs.take(j + 1).last() == rs[j as int]);
        }
        let fields = match &rows[j] {
            JsonVal::Obj(fs) => fs,
            _ => {
                proof {
                    lemma_rows_plan_err_persists(table@, rs, j + 1, rs.len() as int);
                    assert(rs.take(rs.len() as int) =~= rs);
                }
                return Err(DbError::RowNotAnObject);
            },
        };
        if fields.len() == 0 {
            proof {
                assert(rows_plan(table@, rs.take(j + 1)) == rows_plan(table@, rs.take(j as int)));
            }
        } else {
            match build_replace(table, fields) {
                Err(e) => {
                    proof {
                        lemma_rows_plan_err_persists(table@, rs, j + 1, rs.len() as int);
                        assert(rs.take(rs.len() as int) =~= rs);
                    }
                    return Err(e);
                },
                Ok((sql, params)) => {
                    let ghost prev = out@;
                    out.push((sql, params));
                    proof {
                        let ghost st = (replace_sql(table@, fields@), field_params(fields@));
                        assert(rows_plan(table@, rs.take(j + 1)) matches Ok(ss2) && ss2
                            == rows_plan(table@, rs.take(j as int))->Ok_0.push(st));
                        assert(stmts_match(out@, rows_plan(table@, rs.take(j + 1))->Ok_0));
                    }
                },
            }
        }
        j += 1;
    }
    proof {
        assert(rs.take(rs.len() as int) =~= rs);
    }
    Ok(out)
}

/// Plans a whole parsed document into the statements an import would run,
/// in order, without touching storage: the root must be an object,
/// unrecognized top-level keys are skipped, every recognized table's value
/// must be an array, every row's keys are validated, and empty rows are
/// skipped.
pub fn plan_import(doc: &JsonVal) -> (r: Result<Vec<(String, Vec<SqlVal>)>, DbError>)
    ensures
        match import_plan(*doc) {
            Err(e) => r matches Err(er) && er@ == e,
            Ok(ss) => r matches Ok(stmts) && stmts_match(stmts@, ss),
        },
{
    let pairs = match doc {
        JsonVal::Obj(ps) => ps,
        _ => {
            return Err(DbError::NotAnObject);
        },
    };
    let ghost gp = pairs@;
    let mut out: Vec<(String, Vec<SqlVal>)> = Vec::new();
    let mut t: usize = 0;
    while t < pairs.len()
        invariant
            gp == pairs@,
            t <= gp.len(),
            import_plan(*doc) == tables_plan(gp),
            tables_plan(gp.take(t as int)) matches Ok(ss) && stmts_match(out@, ss),
        decreases gp.len() - t,
    {
        proof {
            assert(gp.take(t + 1).drop_last() =~= gp.take(t as int));
            assert(gp.take(t + 1).last() == gp[t as int]);
        }
        let key = &pairs[t].0;
        if table_in_catalog(key.as_str()) {
            match &pairs[t].1 {
                JsonVal::Arr(rows) => {
                    match plan_table(key.as_str(), rows) {
                        Err(e) => {
                            proof {
                                lemma_tables_plan_err_persists(gp, t + 1, gp.len() as int);
                                assert(gp.take(gp.len() as int) =~= gp);
                            }
                            return Err(e);
                        },
                        Ok(mut stmts) => {
                            let ghost prev = out@;
                            let ghost more = stmts@;
                            out.append(&mut stmts);
                            proof {
                                let ss = tables_plan(gp.take(t as int))->Ok_0;
                                let ssm = rows_plan(gp[t as int].0@, pairs[t as int].1->Arr_0@)->Ok_0;
                                assert(tables_plan(gp.take(t + 1)) matches Ok(s2) && s2 == ss + ssm);
                                assert(out@ == prev + more);
                                assert(stmts_match(out@, ss + ssm));
                            }
                        },
                    }
                },
                _ => {
                    proof {
                        lemma_tables_plan_err_persists(gp, t + 1, gp.len() as int);
                        assert(gp.take(gp.len() as int) =~= gp);
                    }
                    return Err(DbError::NotAnArray(key.clone()));
                },
            }
        } else {
            proof {
                assert(tables_plan(gp.take(t + 1)) == tables_plan(gp.take(t as int)));
            }
        }
        t += 1;
    }
    proof {
        assert(gp.take(gp.len() as int) =~= gp);
    }
    Ok(out)
}

/// A value that is one exported row: an object holding the materialization
/// of some stored row.
pub open spec fn is_materialized_record(v: JsonVal) -> bool {
    v matches JsonVal::Obj(rec) && exists|raw: Seq<(String, SqlVal)>| row_materialized(raw, rec@)
}

/// A value that is one exported table: an array of exported rows.
pub open spec fn is_export_table(v: JsonVal) -> bool {
    v matches JsonVal::Arr(rows) && forall|j: int|
        0 <= j < rows@.len() ==> is_materialized_record(#[trigger] rows@[j])
}

/// A value that is a whole export document: one object whose keys are
/// exactly the catalog's table names in declaration order, each mapped to
/// that table's exported rows.
pub open spec fn is_export_document(doc: JsonVal) -> bool {
    doc matches JsonVal::Obj(pairs) && pairs@.len() == catalog_seq().len() && forall|i: int|
        0 <= i < pairs@.len() ==> (#[trigger] pairs@[i]).0@ == catalog_seq()[i]
            && is_export_table(pairs@[i].1)
}

/// Exports every catalog table, in the catalog's fixed order, as one
/// document mapping each table name to its materialized rows: the returned
/// text is the pretty-printed rendering of an export document. The only
/// possible failure is an engine error.
pub fn db_export_json(conn: &rusqlite::Connection) -> (r: Result<String, DbError>)
    ensures
        r matches Err(e) ==> e@ matches GErr::Engine(_),
        r matches Ok(t) ==> exists|doc: JsonVal|
            #[trigger] is_export_document(doc) && t@ == pretty_text_of(doc),
{
    let names = catalog_names();
    let mut pairs: Vec<(String, JsonVal)> = Vec::new();
    let mut i: usize = 0;
    while i < names.len()
        invariant
            names@.len() == catalog_seq().len(),
            forall|k: int| 0 <= k < names@.len() ==> names@[k]@ == catalog_seq()[k],
            i <= names@.len(),
            pairs@.len() == i,
            forall|k: int|
                0 <= k < i ==> (#[trigger] pairs@[k]).0@ == catalog_seq()[k] && is_export_table(
                    pairs@[k].1,
                ),
        decreases names@.len() - i,
    {
        proof {
            lemma_catalog_names_allowed(i as int);
        }
        let sql = build_select_all(names[i]);
        let empty: Vec<SqlVal> = Vec::new();
        let mut recs = match rows_to_json(conn, sql.as_str(), &empty) {
            Ok(r) => r,
            Err(e) => {
                return Err(e);
            },
        };
        let ghost all = recs@;
        let ghost m = all.map_values(|x: Record| x@);
        let ghost raw = choose|raw: Seq<Seq<(String, SqlVal)>>| rows_materialized(raw, m);
        proof {
            assert(rows_materialized(raw, m));
        }
        let mut arr: Vec<JsonVal> = Vec::new();
        while recs.len() > 0
            invariant
                rows_materialized(raw, m),
                m == all.map_values(|x: Record| x@),
                arr@.len() + recs@.len() == all.len(),
                recs@ == all.skip(arr@.len() as int),
                forall|j: int| 0 <= j < arr@.len() ==> is_materialized_record(#[trigger] arr@[j]),
            decreases recs.len(),
        {
            let ghost n = arr@.len() as int;
            let rec = recs.remove(0);
            let ghost grec = rec@;
            proof {
                assert(all.skip(n)[0] == all[n]);
                assert(grec == m[n]);
                assert(row_materialized(raw[n], grec));
            }
            arr.push(JsonVal::Obj(rec));
            proof {
                assert(arr@[n] matches JsonVal::Obj(r2) && r2@ == grec);
                assert(is_materialized_record(arr@[n]));
                assert(recs@ =~= all.skip(n + 1));
            }
        }
        pairs.push((names[i].to_owned(), JsonVal::Arr(arr)));
        i += 1;
    }
    let doc = JsonVal::Obj(pairs);
    let text = to_pretty_text(&doc);
    proof {
        assert(is_export_document(doc));
    }
    Ok(text)
}

/// Imports a snapshot document: parses it, plans every recognized table's
/// rows, and executes the whole plan inside one transaction with
/// insert-or-replace semantics; any failure rolls the entire import back.
/// Exactly the plan's verdict is reported before storage is touched.
pub fn db_import_json(conn: &rusqlite::Connection, text: &str) -> (r: Result<(), DbError>)
    ensures
        match json_doc_of(text@) {
            None => r matches Err(e) && e@ matches GErr::Engine(_),
            Some(doc) => match import_plan(doc) {
                Err(e) => r matches Err(er) && er@ == e,
                Ok(_) => r matches Err(er) ==> er@ matches GErr::Engine(_),
            },
        },
{
    let doc = match parse_json(text) {
        Ok(d) => d,
        Err(m) => {
            return Err(DbError::Engine(concat_msg("parse failed: ", m.as_str())));
        },
    };
    let stmts = match plan_import(&doc) {
        Ok(s) => s,
        Err(e) => {
            return Err(e);
        },
    };
    if let Err(m) = run_batch(conn, "BEGIN") {
        return Err(DbError::Engine(m));
    }
    let mut i: usize = 0;
    while i < stmts.len()
        invariant
            i <= stmts@.len(),
            json_doc_of(text@) matches Some(d) && import_plan(d) is Ok,
        decreases stmts@.len() - i,
    {
        if let Err(m) = run_execute(conn, stmts[i].0.as_str(), &stmts[i].1) {
            let _ = run_batch(conn, "ROLLBACK");
            return Err(DbError::Engine(concat_msg("import failed: ", m.as_str())));
        }
        i += 1;
    }
    match run_batch(conn, "COMMIT") {
        Ok(_) => Ok(()),
        Err(m) => Err(DbError::Engine(m)),
    }
}

} // verus!
