use vstd::prelude::*;
use crate::err::{DbError, GErr};
use crate::ops::{rows_to_json, some_materialization, Record};
use crate::text::{contains_semicolon, has_read_prefix, read_prefix, trim_ws, trimmed};
use crate::trusted::stmt_readonly;
use crate::value::{coerce, json_to_sql, views_of, GSqlVal, JsonVal, SqlVal};

verus! {

/// The caller's query text after sanitization: trimmed, one trailing
/// statement terminator removed, trimmed again.
pub open spec fn sanitized(s: Seq<char>) -> Seq<char> {
    let t = trimmed(s);
    if t.len() > 0 && t.last() == ';' {
        trimmed(t.drop_last())
    } else {
        t
    }
}

/// Why the gateway rejects a query text, when it does: a terminator left
/// after sanitization means stacked statements; a text not led by a read
/// keyword is not a read query.
pub open spec fn sanitize_err(s: Seq<char>) -> Option<GErr> {
    if sanitized(s).contains(';') {
        Some(GErr::MultipleStatements)
    } else if !read_prefix(sanitized(s)) {
        Some(GErr::NotAReadQuery)
    } else {
        None
    }
}

/// Sanitizes caller-supplied aggregate query text: succeeds exactly when,
/// after trimming and dropping one trailing terminator, no terminator
/// remains and the text begins with SELECT or WITH in any letter case.
pub fn sanitize_aggregate_sql(sql: &str) -> (r: Result<String, DbError>)
    ensures
        match sanitize_err(sql@) {
            Some(e) => r matches Err(er) && er@ == e,
            None => r matches Ok(t) && t@ == sanitized(sql@),
        },
{
    let t1 = trim_ws(sql);
    let n = t1.unicode_len();
    let core: &str = if n > 0 && t1.get_char(n - 1) == ';' {
        let stripped = t1.substring_char(0, n - 1);
        proof {
            assert(stripped@ =~= t1@.drop_last());
        }
        trim_ws(stripped)
    } else {
        t1
    };
    proof {
        assert(core@ == sanitized(sql@));
    }
    if contains_semicolon(core) {
        return Err(DbError::MultipleStatements);
    }
    if !has_read_prefix(core) {
        return Err(DbError::NotAReadQuery);
    }
    Ok(core.to_owned())
}

/// Asks the engine whether the prepared statement is read-only and rejects
/// it otherwise: defense in depth past the textual prefix check.
pub fn ensure_aggregate_readonly(conn: &rusqlite::Connection, sql: &str) -> (r: Result<
    (),
    DbError,
>)
    ensures
        r matches Err(e) ==> (e@ == GErr::NotReadOnly || e@ matches GErr::Engine(_)),
{
    match stmt_readonly(conn, sql) {
        Ok(true) => Ok(()),
        Ok(false) => Err(DbError::NotReadOnly),
        Err(m) => Err(DbError::Engine(m)),
    }
}

/// The scalars an aggregate call binds: the caller's values coerced, in the
/// caller's order; an absent list binds nothing.
pub open spec fn aggregate_params(p: Option<Vec<JsonVal>>) -> Seq<GSqlVal> {
    match p {
        Some(ps) => ps@.map_values(|v: JsonVal| coerce(v)),
        None => Seq::empty(),
    }
}

/// Coerces the caller's bind values, keeping their order.
pub fn coerce_params(params: &Option<Vec<JsonVal>>) -> (r: Vec<SqlVal>)
    ensures
        views_of(r@) == aggregate_params(*params),
{
    let mut bound: Vec<SqlVal> = Vec::new();
    match params {
        Some(ps) => {
            let mut i: usize = 0;
            while i < ps.len()
                invariant
                    i <= ps@.len(),
                    views_of(bound@) == ps@.take(i as int).map_values(|v: JsonVal| coerce(v)),
                decreases ps@.len() - i,
            {
                let ghost before = bound@;
                let sv = json_to_sql(&ps[i]);
                bound.push(sv);
                proof {
                    assert(views_of(before.push(sv)) =~= views_of(before).push(sv@));
                    assert(ps@.take(i + 1).map_values(|v: JsonVal| coerce(v)) =~= ps@.take(
                        i as int,
                    ).map_values(|v: JsonVal| coerce(v)).push(coerce(ps@[i as int])));
                }
                i += 1;
            }
            proof {
                assert(ps@.take(ps@.len() as int) =~= ps@);
            }
        },
        None => {},
    }
    proof {
        assert(views_of(bound@) =~= aggregate_params(*params));
    }
    bound
}

/// Runs caller-supplied read-only SQL, binding exactly the caller's values
/// coerced in order. Exactly the sanitization verdict is reported; past it,
/// only the engine's read-only refusal or an engine error can fail the
/// call, and a returned result set is the materialization of what the
/// engine handed back. No limit is injected: the caller's query governs the
/// result size.
pub fn db_aggregate(conn: &rusqlite::Connection, sql: &str, params: &Option<Vec<JsonVal>>) -> (r:
    Result<Vec<Record>, DbError>)
    ensures
        match sanitize_err(sql@) {
            Some(e) => r matches Err(er) && er@ == e,
            None => r matches Err(er) ==> (er@ == GErr::NotReadOnly || er@ matches GErr::Engine(
                _,
            )),
        },
        r matches Ok(recs) ==> some_materialization(recs@.map_values(|x: Record| x@)),
{
    let safe = match sanitize_aggregate_sql(sql) {
        Ok(t) => t,
        Err(e) => {
            return Err(e);
        },
    };
    if let Err(e) = ensure_aggregate_readonly(conn, safe.as_str()) {
        return Err(e);
    }
    let bound = coerce_params(params);
    rows_to_json(conn, safe.as_str(), &bound)
}

} // verus!
