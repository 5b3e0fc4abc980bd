use vstd::prelude::*;
use crate::err::{DbError, GErr};
use crate::ident::{allowed_op, op_in_allowed, table_allowed, valid_column_name, validate_column, validate_table, str_eq};
use crate::value::{coerce, dec_i64, i64_to_string, json_to_sql, views_of, GSqlVal, JsonVal, SqlVal};

verus! {

/// One filter clause: `column operator value`, ANDed with its neighbours.
pub struct WhereClause {
    pub column: String,
    pub op: String,
    pub value: JsonVal,
}

/// A filter descriptor: clauses plus optional pagination.
pub struct Filter {
    pub clauses: Vec<WhereClause>,
    pub limit: Option<i64>,
    pub offset: Option<i64>,
}

/// A sort descriptor; an absent column falls back to the conventional
/// last-modified column, and any direction but the ascending literal
/// resolves to descending.
pub struct Sort {
    pub column: Option<String>,
    pub direction: Option<String>,
}

/// Text pieces joined with a separator.
pub open spec fn join_texts(parts: Seq<Seq<char>>, sep: Seq<char>) -> Seq<char>
    decreases parts.len(),
{
    if parts.len() == 0 {
        Seq::empty()
    } else if parts.len() == 1 {
        parts[0]
    } else {
        join_texts(parts.drop_last(), sep) + sep + parts.last()
    }
}

pub proof fn lemma_join_push(parts: Seq<Seq<char>>, sep: Seq<char>, x: Seq<char>)
    ensures
        join_texts(parts.push(x), sep) == if parts.len() == 0 {
            x
        } else {
            join_texts(parts, sep) + sep + x
        },
{
    let p = parts.push(x);
    assert(p.drop_last() =~= parts);
    assert(p.last() == x);
}

/// `n` bound placeholders, comma-separated.
pub open spec fn placeholders(n: nat) -> Seq<char>
    decreases n,
{
    if n <= 1 {
        "?"@
    } else {
        placeholders((n - 1) as nat) + ", ?"@
    }
}

/// The SQL fragment one clause renders to. The column and operator are
/// interpolated only after validation; the value is always a placeholder,
/// and an `IN` over an empty array degenerates to an always-false predicate.
pub open spec fn clause_sql(c: WhereClause) -> Seq<char> {
    if c.op@ == "IN"@ {
        match c.value {
            JsonVal::Arr(a) => if a@.len() == 0 {
                "1 = 0"@
            } else {
                c.column@ + " IN ("@ + placeholders(a@.len() as nat) + ")"@
            },
            _ => c.column@ + " IN (?)"@,
        }
    } else {
        c.column@ + " "@ + c.op@ + " ?"@
    }
}

/// The scalars one clause binds, in order.
pub open spec fn clause_params(c: WhereClause) -> Seq<GSqlVal> {
    if c.op@ == "IN"@ {
        match c.value {
            JsonVal::Arr(a) => a@.map_values(|v: JsonVal| coerce(v)),
            _ => seq![coerce(c.value)],
        }
    } else {
        seq![coerce(c.value)]
    }
}

/// The first validation failure among the clauses, in order: a bad column
/// name before a bad operator within one clause.
pub open spec fn clauses_err(cs: Seq<WhereClause>) -> Option<GErr>
    decreases cs.len(),
{
    if cs.len() == 0 {
        None
    } else if !valid_column_name(cs[0].column@) {
        Some(GErr::InvalidColumn(cs[0].column@))
    } else if !allowed_op(cs[0].op@) {
        Some(GErr::UnsupportedOperator(cs[0].op@))
    } else {
        clauses_err(cs.drop_first())
    }
}

pub proof fn lemma_clauses_err_skip(cs: Seq<WhereClause>, i: int)
    requires
        0 <= i <= cs.len(),
        forall|k: int| 0 <= k < i ==> valid_column_name(cs[k].column@) && allowed_op(cs[k].op@),
    ensures
        clauses_err(cs) == clauses_err(cs.skip(i)),
    decreases i,
{
    if i > 0 {
        assert(cs.drop_first() =~= cs.skip(1));
        lemma_clauses_err_skip(cs.skip(1), i - 1);
        assert(cs.skip(1).skip(i - 1) =~= cs.skip(i));
    } else {
        assert(cs.skip(0) =~= cs);
    }
}

/// All clauses joined with AND.
pub open spec fn conditions_text(cs: Seq<WhereClause>) -> Seq<char> {
    join_texts(cs.map_values(|c: WhereClause| clause_sql(c)), " AND "@)
}

pub proof fn lemma_conditions_push(cs: Seq<WhereClause>, i: int)
    requires
        0 <= i < cs.len(),
    ensures
        conditions_text(cs.take(i + 1)) == if i == 0 {
            clause_sql(cs[i])
        } else {
            conditions_text(cs.take(i)) + " AND "@ + clause_sql(cs[i])
        },
{
    let a = cs.take(i + 1).map_values(|c: WhereClause| clause_sql(c));
    let b = cs.take(i).map_values(|c: WhereClause| clause_sql(c));
    assert(a.drop_last() =~= b);
    assert(a.last() == clause_sql(cs[i]));
}

/// The scalars all clauses bind, in clause order.
pub open spec fn params_of(cs: Seq<WhereClause>) -> Seq<GSqlVal>
    decreases cs.len(),
{
    if cs.len() == 0 {
        Seq::empty()
    } else {
        params_of(cs.drop_last()) + clause_params(cs.last())
    }
}

pub proof fn lemma_params_push(cs: Seq<WhereClause>, i: int)
    requires
        0 <= i < cs.len(),
    ensures
        params_of(cs.take(i + 1)) == params_of(cs.take(i)) + clause_params(cs[i]),
{
    let a = cs.take(i + 1);
    assert(a.drop_last() =~= cs.take(i));
    assert(a.last() == cs[i]);
}

/// The WHERE section, empty when there are no clauses.
pub open spec fn where_text(cs: Seq<WhereClause>) -> Seq<char> {
    if cs.len() == 0 {
        Seq::empty()
    } else {
        " WHERE "@ + conditions_text(cs)
    }
}

/// The clauses a possibly absent filter carries.
pub open spec fn clauses_of(f: Option<Filter>) -> Seq<WhereClause> {
    match f {
        Some(ff) => ff.clauses@,
        None => Seq::empty(),
    }
}

/// The column a sort descriptor orders by.
pub open spec fn sort_col(s: Sort) -> Seq<char> {
    match s.column {
        Some(c) => c@,
        None => "updated_at"@,
    }
}

/// The direction literal a sort descriptor resolves to.
pub open spec fn sort_dir(s: Sort) -> Seq<char> {
    if s.direction matches Some(d) && d@ == "ASC"@ {
        "ASC"@
    } else {
        "DESC"@
    }
}

/// The ORDER BY section, present exactly when a sort descriptor is given.
pub open spec fn order_text(o: Option<Sort>) -> Seq<char> {
    match o {
        Some(s) => " ORDER BY "@ + sort_col(s) + " "@ + sort_dir(s),
        None => Seq::empty(),
    }
}

/// The LIMIT section, a literal decimal integer.
pub open spec fn limit_text(f: Option<Filter>) -> Seq<char> {
    match f {
        Some(ff) => match ff.limit {
            Some(n) => " LIMIT "@ + dec_i64(n as int),
            None => Seq::empty(),
        },
        None => Seq::empty(),
    }
}

/// The OFFSET section, a literal decimal integer.
pub open spec fn offset_text(f: Option<Filter>) -> Seq<char> {
    match f {
        Some(ff) => match ff.offset {
            Some(n) => " OFFSET "@ + dec_i64(n as int),
            None => Seq::empty(),
        },
        None => Seq::empty(),
    }
}

/// The whole SELECT statement a list operation runs.
pub open spec fn select_sql(table: Seq<char>, f: Option<Filter>, o: Option<Sort>) -> Seq<char> {
    "SELECT * FROM "@ + table + where_text(clauses_of(f)) + order_text(o) + limit_text(f)
        + offset_text(f)
}

/// The scalars the SELECT binds.
pub open spec fn select_params(f: Option<Filter>) -> Seq<GSqlVal> {
    params_of(clauses_of(f))
}

/// The first validation failure of a list operation: the table, then the
/// clauses in order, then the sort column.
pub open spec fn select_err(table: Seq<char>, f: Option<Filter>, o: Option<Sort>) -> Option<GErr> {
    if !table_allowed(table) {
        Some(GErr::ForbiddenTable(table))
    } else if clauses_err(clauses_of(f)) is Some {
        clauses_err(clauses_of(f))
    } else {
        match o {
            Some(s) => if !valid_column_name(sort_col(s)) {
                Some(GErr::InvalidColumn(sort_col(s)))
            } else {
                None
            },
            None => None,
        }
    }
}

/// Renders one validated clause and pushes the scalars it binds.
fn clause_fragment(c: &WhereClause, params: &mut Vec<SqlVal>) -> (r: String)
    requires
        valid_column_name(c.column@),
        allowed_op(c.op@),
    ensures
        r@ == clause_sql(*c),
        views_of(final(params)@) == views_of(old(params)@) + clause_params(*c),
{
    let ghost before = params@;
    if str_eq(c.op.as_str(), "IN") {
        match &c.value {
            JsonVal::Arr(arr) => {
                if arr.len() == 0 {
                    proof {
                        assert(views_of(before) + clause_params(*c) =~= views_of(before));
                    }
                    "1 = 0".to_owned()
                } else {
                    let mut s = c.column.clone();
                    s.append(" IN (");
                    let ph = placeholder_list(arr.len());
                    s.append(ph.as_str());
                    s.append(")");
                    let mut k: usize = 0;
                    while k < arr.len()
                        invariant
                            k <= arr.len(),
                            views_of(params@) == views_of(before) + arr@.take(k as int).map_values(
                                |v: JsonVal| coerce(v),
                            ),
                        decreases arr.len() - k,
                    {
                        let ghost pp = params@;
                        let sv = json_to_sql(&arr[k]);
                        params.push(sv);
                        proof {
                            assert(views_of(pp.push(sv)) =~= views_of(pp).push(sv@));
                            assert(arr@.take(k + 1).map_values(|v: JsonVal| coerce(v)) =~= arr@.take(
                                k as int,
                            ).map_values(|v: JsonVal| coerce(v)).push(coerce(arr@[k as int])));
                            assert(views_of(params@) =~= views_of(before) + arr@.take(
                                k + 1,
                            ).map_values(|v: JsonVal| coerce(v)));
                        }
                        k += 1;
                    }
                    proof {
                        assert(arr@.take(arr@.len() as int) =~= arr@);
                        assert(s@ =~= clause_sql(*c));
                    }
                    s
                }
            },
            _ => {
                let mut s = c.column.clone();
                s.append(" IN (?)");
                let sv = json_to_sql(&c.value);
                params.push(sv);
                proof {
                    assert(views_of(params@) =~= views_of(before) + clause_params(*c));
                }
                s
            },
        }
    } else {
        let mut s = c.column.clone();
        s.append(" ");
        s.append(c.op.as_str());
        s.append(" ?");
        let sv = json_to_sql(&c.value);
        params.push(sv);
        proof {
            assert(views_of(params@) =~= views_of(before) + clause_params(*c));
            assert(s@ =~= clause_sql(*c));
        }
        s
    }
}

/// A comma-separated list of `n` placeholders.
fn placeholder_list(n: usize) -> (r: String)
    requires
        n >= 1,
    ensures
        r@ == placeholders(n as nat),
{
    let mut s = "?".to_owned();
    let mut i: usize = 1;
    while i < n
        invariant
            1 <= i <= n,
            s@ == placeholders(i as nat),
        decreases n - i,
    {
        s.append(", ?");
        i += 1;
    }
    s
}

/// Builds the SELECT statement and its bound scalars for a list operation,
/// or reports the first validation failure; no caller text reaches an
/// identifier position unvalidated, and every value is bound, never
/// interpolated.
pub fn build_select(table: &str, filter: &Option<Filter>, sort: &Option<Sort>) -> (r: Result<
    (String, Vec<SqlVal>),
    DbError,
>)
    ensures
        match select_err(table@, *filter, *sort) {
            Some(e) => r matches Err(er) && er@ == e,
            None => r matches Ok(p) && p.0@ == select_sql(table@, *filter, *sort) && views_of(
                p.1@,
            ) == select_params(*filter),
        },
{
    if let Err(e) = validate_table(table) {
        return Err(e);
    }
    let mut sql = "SELECT * FROM ".to_owned();
    sql.append(table);
    let mut params: Vec<SqlVal> = Vec::new();
    let ghost cs = clauses_of(*filter);
    match filter {
        Some(f) => {
            if f.clauses.len() > 0 {
                sql.append(" WHERE ");
                let ghost base = "SELECT * FROM "@ + table@ + " WHERE "@;
                let mut i: usize = 0;
                while i < f.clauses.len()
                    invariant
                        cs == f.clauses@,
                        i <= cs.len(),
                        cs.len() > 0,
                        forall|k: int|
                            0 <= k < i ==> valid_column_name(cs[k].column@) && allowed_op(
                                cs[k].op@,
                            ),
                        i > 0 ==> sql@ == base + conditions_text(cs.take(i as int)),
                        i == 0 ==> sql@ == base,
                        views_of(params@) == params_of(cs.take(i as int)),
                        base == "SELECT * FROM "@ + table@ + " WHERE "@,
                        clauses_of(*filter) == cs,
                        table_allowed(table@),
                    decreases cs.len() - i,
                {
                    let c = &f.clauses[i];
                    if let Err(e) = validate_column(c.column.as_str()) {
                        proof {
                            lemma_clauses_err_skip(cs, i as int);
                            assert(cs.skip(i as int)[0] == cs[i as int]);
                        }
                        return Err(e);
                    }
                    if !op_in_allowed(c.op.as_str()) {
                        proof {
                            lemma_clauses_err_skip(cs, i as int);
                            assert(cs.skip(i as int)[0] == cs[i as int]);
                        }
                        return Err(DbError::UnsupportedOperator(c.op.clone()));
                    }
                    if i > 0 {
                        sql.append(" AND ");
                    }
                    let frag = clause_fragment(c, &mut params);
                    sql.append(frag.as_str());
                    proof {
                        lemma_conditions_push(cs, i as int);
                        lemma_params_push(cs, i as int);
                        assert(params_of(cs.take(i as int)) + clause_params(cs[i as int])
                            =~= params_of(cs.take(i + 1)));
                    }
                    i += 1;
                }
                proof {
                    lemma_clauses_err_skip(cs, cs.len() as int);
                    assert(cs.skip(cs.len() as int) =~= Seq::<WhereClause>::empty());
                    assert(cs.take(cs.len() as int) =~= cs);
                }
            } else {
                proof {
                    assert(params_of(cs) =~= views_of(params@));
                }
            }
        },
        None => {
            proof {
                assert(params_of(cs) =~= views_of(params@));
            }
        },
    }
    let ghost sql_with_where = "SELECT * FROM "@ + table@ + where_text(cs);
    proof {
        assert(sql@ =~= sql_with_where);
    }
    match sort {
        Some(s) => {
            let col: &str = match &s.column {
                Some(c) => c.as_str(),
                None => "updated_at",
            };
            if let Err(e) = validate_column(col) {
                return Err(e);
            }
            sql.append(" ORDER BY ");
            sql.append(col);
            sql.append(" ");
            let asc = match &s.direction {
                Some(d) => str_eq(d.as_str(), "ASC"),
                None => false,
            };
            if asc {
                sql.append("ASC");
            } else {
                sql.append("DESC");
            }
        },
        None => {},
    }
    proof {
        assert(sql@ =~= sql_with_where + order_text(*sort));
    }
    match filter {
        Some(f) => {
            if let Some(n) = f.limit {
                sql.append(" LIMIT ");
                let t = i64_to_string(n);
                sql.append(t.as_str());
            }
            if let Some(n) = f.offset {
                sql.append(" OFFSET ");
                let t = i64_to_string(n);
                sql.append(t.as_str());
            }
        },
        None => {},
    }
    proof {
        assert(sql@ =~= select_sql(table@, *filter, *sort));
    }
    Ok((sql, params))
}

/// The first invalid column name among a payload's keys, in order.
pub open spec fn fields_err(fs: Seq<(String, JsonVal)>) -> Option<GErr>
    decreases fs.len(),
{
    if fs.len() == 0 {
        None
    } else if !valid_column_name(fs[0].0@) {
        Some(GErr::InvalidColumn(fs[0].0@))
    } else {
        fields_err(fs.drop_first())
    }
}

pub proof fn lemma_fields_err_skip(fs: Seq<(String, JsonVal)>, i: int)
    requires
        0 <= i <= fs.len(),
        forall|k: int| 0 <= k < i ==> valid_column_name(fs[k].0@),
    ensures
        fields_err(fs) == fields_err(fs.skip(i)),
    decreases i,
{
    if i > 0 {
        assert(fs.drop_first() =~= fs.skip(1));
        lemma_fields_err_skip(fs.skip(1), i - 1);
        assert(fs.skip(1).skip(i - 1) =~= fs.skip(i));
    } else {
        assert(fs.skip(0) =~= fs);
    }
}

/// The column names of a payload, in payload order.
pub open spec fn col_list(fs: Seq<(String, JsonVal)>) -> Seq<Seq<char>> {
    fs.map_values(|p: (String, JsonVal)| p.0@)
}

/// The coerced scalars of a payload, in payload order.
pub open spec fn field_params(fs: Seq<(String, JsonVal)>) -> Seq<GSqlVal> {
    fs.map_values(|p: (String, JsonVal)| coerce(p.1))
}

/// The INSERT an insert operation runs: the generated identifier first,
/// then the payload columns, each value a placeholder.
pub open spec fn insert_sql(table: Seq<char>, fs: Seq<(String, JsonVal)>) -> Seq<char> {
    "INSERT INTO "@ + table + " ("@ + join_texts(seq!["id"@] + col_list(fs), ", "@)
        + ") VALUES ("@ + placeholders((fs.len() + 1) as nat) + ")"@
}

/// The INSERT OR REPLACE one imported row runs.
pub open spec fn replace_sql(table: Seq<char>, fs: Seq<(String, JsonVal)>) -> Seq<char> {
    "INSERT OR REPLACE INTO "@ + table + " ("@ + join_texts(col_list(fs), ", "@) + ") VALUES ("@
        + placeholders(fs.len() as nat) + ")"@
}

/// One SET assignment.
pub open spec fn set_piece(col: Seq<char>) -> Seq<char> {
    col + " = ?"@
}

/// The SET assignments of an update: one per payload key, and always,
/// last, the modification timestamp set to the current time.
pub open spec fn update_sets(fs: Seq<(String, JsonVal)>) -> Seq<Seq<char>> {
    col_list(fs).map_values(|c: Seq<char>| set_piece(c)).push("updated_at = datetime('now')"@)
}

/// The UPDATE an update operation runs.
pub open spec fn update_sql(table: Seq<char>, fs: Seq<(String, JsonVal)>) -> Seq<char> {
    "UPDATE "@ + table + " SET "@ + join_texts(update_sets(fs), ", "@) + " WHERE id = ?"@
}

pub open spec fn delete_sql(table: Seq<char>) -> Seq<char> {
    "DELETE FROM "@ + table + " WHERE id = ?"@
}

pub open spec fn get_by_id_sql(table: Seq<char>) -> Seq<char> {
    "SELECT * FROM "@ + table + " WHERE id = ?"@
}

pub open spec fn select_all_sql(table: Seq<char>) -> Seq<char> {
    "SELECT * FROM "@ + table
}

pub open spec fn pragma_info_sql(table: Seq<char>) -> Seq<char> {
    "PRAGMA table_info("@ + table + ")"@
}

pub open spec fn link_sql(j: Seq<char>, c0: Seq<char>, c1: Seq<char>) -> Seq<char> {
    "INSERT OR IGNORE INTO "@ + j + " ("@ + c0 + ", "@ + c1 + ") VALUES (?, ?)"@
}

pub open spec fn unlink_sql(j: Seq<char>, c0: Seq<char>, c1: Seq<char>) -> Seq<char> {
    "DELETE FROM "@ + j + " WHERE "@ + c0 + " = ? AND "@ + c1 + " = ?"@
}

pub open spec fn linked_sql(j: Seq<char>, known: Seq<char>, other: Seq<char>) -> Seq<char> {
    "SELECT "@ + other + " FROM "@ + j + " WHERE "@ + known + " = ?"@
}

/// Builds the INSERT for a fresh identifier and a validated payload, or
/// reports the first invalid column name.
pub fn build_insert(table: &str, id: &str, fields: &Vec<(String, JsonVal)>) -> (r: Result<
    (String, Vec<SqlVal>),
    DbError,
>)
    requires
        table_allowed(table@),
    ensures
        match fields_err(fields@) {
            Some(e) => r matches Err(er) && er@ == e,
            None => r matches Ok(p) && p.0@ == insert_sql(table@, fields@) && views_of(p.1@)
                == seq![GSqlVal::Text(id@)] + field_params(fields@),
        },
{
    let ghost fs = fields@;
    let mut cols = "id".to_owned();
    let mut ph = "?".to_owned();
    let mut params: Vec<SqlVal> = Vec::new();
    params.push(SqlVal::Text(id.to_owned()));
    proof {
        assert(seq!["id"@] + col_list(fs.take(0)) =~= seq!["id"@]);
        assert(views_of(params@) =~= seq![GSqlVal::Text(id@)] + field_params(fs.take(0)));
    }
    let mut i: usize = 0;
    while i < fields.len()
        invariant
            fs == fields@,
            i <= fs.len(),
            forall|k: int| 0 <= k < i ==> valid_column_name(fs[k].0@),
            cols@ == join_texts(seq!["id"@] + col_list(fs.take(i as int)), ", "@),
            ph@ == placeholders((i + 1) as nat),
            views_of(params@) == seq![GSqlVal::Text(id@)] + field_params(fs.take(i as int)),
        decreases fs.len() - i,
    {
        let key = &fields[i].0;
        if let Err(e) = validate_column(key.as_str()) {
            proof {
                lemma_fields_err_skip(fs, i as int);
                assert(fs.skip(i as int)[0] == fs[i as int]);
            }
            return Err(e);
        }
        cols.append(", ");
        cols.append(key.as_str());
        ph.append(", ?");
        let ghost pp = params@;
        let sv = json_to_sql(&fields[i].1);
        params.push(sv);
        proof {
            let parts = seq!["id"@] + col_list(fs.take(i as int));
            lemma_join_push(parts, ", "@, fs[i as int].0@);
            assert(seq!["id"@] + col_list(fs.take(i + 1)) =~= parts.push(fs[i as int].0@));
            assert(cols@ =~= join_texts(seq!["id"@] + col_list(fs.take(i + 1)), ", "@));
            assert(views_of(pp.push(sv)) =~= views_of(pp).push(sv@));
            assert(field_params(fs.take(i + 1)) =~= field_params(fs.take(i as int)).push(
                coerce(fs[i as int].1),
            ));
            assert(views_of(params@) =~= seq![GSqlVal::Text(id@)] + field_params(fs.take(i + 1)));
        }
        i += 1;
    }
    proof {
        lemma_fields_err_skip(fs, fs.len() as int);
        assert(fs.skip(fs.len() as int) =~= Seq::<(String, JsonVal)>::empty());
        assert(fs.take(fs.len() as int) =~= fs);
    }
    let mut sql = "INSERT INTO ".to_owned();
    sql.append(table);
    sql.append(" (");
    sql.append(cols.as_str());
    sql.append(") VALUES (");
    sql.append(ph.as_str());
    sql.append(")");
    proof {
        assert(sql@ =~= insert_sql(table@, fs));
    }
    Ok((sql, params))
}

/// Builds the INSERT OR REPLACE for one imported row, or reports the first
/// invalid column name.
pub fn build_replace(table: &str, fields: &Vec<(String, JsonVal)>) -> (r: Result<
    (String, Vec<SqlVal>),
    DbError,
>)
    requires
        table_allowed(table@),
        fields@.len() > 0,
    ensures
        match fields_err(fields@) {
            Some(e) => r matches Err(er) && er@ == e,
            None => r matches Ok(p) && p.0@ == replace_sql(table@, fields@) && views_of(p.1@)
                == field_params(fields@),
        },
{
    let ghost fs = fields@;
    let mut cols = String::new();
    let mut ph = "?".to_owned();
    let mut params: Vec<SqlVal> = Vec::new();
    let mut i: usize = 0;
    while i < fields.len()
        invariant
            fs == fields@,
            i <= fs.len(),
            forall|k: int| 0 <= k < i ==> valid_column_name(fs[k].0@),
            i == 0 ==> cols@ == Seq::<char>::empty() && ph@ == "?"@,
            i > 0 ==> cols@ == join_texts(col_list(fs.take(i as int)), ", "@) && ph@
                == placeholders(i as nat),
            views_of(params@) == field_params(fs.take(i as int)),
        decreases fs.len() - i,
    {
        let key = &fields[i].0;
        if let Err(e) = validate_column(key.as_str()) {
            proof {
                lemma_fields_err_skip(fs, i as int);
                assert(fs.skip(i as int)[0] == fs[i as int]);
            }
            return Err(e);
        }
        if i > 0 {
            cols.append(", ");
            ph.append(", ?");
        }
        cols.append(key.as_str());
        let ghost pp = params@;
        let sv = json_to_sql(&fields[i].1);
        params.push(sv);
        proof {
            let parts = col_list(fs.take(i as int));
            lemma_join_push(parts, ", "@, fs[i as int].0@);
            assert(col_list(fs.take(i + 1)) =~= parts.push(fs[i as int].0@));
            assert(cols@ =~= join_texts(col_list(fs.take(i + 1)), ", "@));
            assert(views_of(pp.push(sv)) =~= views_of(pp).push(sv@));
            assert(field_params(fs.take(i + 1)) =~= field_params(fs.take(i as int)).push(
                coerce(fs[i as int].1),
            ));
            assert(views_of(params@) =~= field_params(fs.take(i + 1)));
        }
        i += 1;
    }
    proof {
        lemma_fields_err_skip(fs, fs.len() as int);
        assert(fs.skip(fs.len() as int) =~= Seq::<(String, JsonVal)>::empty());
        assert(fs.take(fs.len() as int) =~= fs);
    }
    let mut sql = "INSERT OR REPLACE INTO ".to_owned();
    sql.append(table);
    sql.append(" (");
    sql.append(cols.as_str());
    sql.append(") VALUES (");
    sql.append(ph.as_str());
    sql.append(")");
    proof {
        assert(sql@ =~= replace_sql(table@, fs));
    }
    Ok((sql, params))
}

/// Builds the UPDATE for a validated payload: every key set, and the
/// modification timestamp always set to the current time, keyed by the
/// bound identifier.
pub fn build_update(table: &str, id: &str, fields: &Vec<(String, JsonVal)>) -> (r: Result<
    (String, Vec<SqlVal>),
    DbError,
>)
    requires
        table_allowed(table@),
    ensures
        match fields_err(fields@) {
            Some(e) => r matches Err(er) && er@ == e,
            None => r matches Ok(p) && p.0@ == update_sql(table@, fields@) && views_of(p.1@)
                == field_params(fields@).push(GSqlVal::Text(id@)),
        },
{
    let ghost fs = fields@;
    let mut sets = String::new();
    let mut params: Vec<SqlVal> = Vec::new();
    let mut i: usize = 0;
    while i < fields.len()
        invariant
            fs == fields@,
            i <= fs.len(),
            forall|k: int| 0 <= k < i ==> valid_column_name(fs[k].0@),
            i == 0 ==> sets@ == Seq::<char>::empty(),
            i > 0 ==> sets@ == join_texts(
                col_list(fs.take(i as int)).map_values(|c: Seq<char>| set_piece(c)),
                ", "@,
            ),
            views_of(params@) == field_params(fs.take(i as int)),
        decreases fs.len() - i,
    {
        let key = &fields[i].0;
        if let Err(e) = validate_column(key.as_str()) {
            proof {
                lemma_fields_err_skip(fs, i as int);
                assert(fs.skip(i as int)[0] == fs[i as int]);
            }
            return Err(e);
        }
        if i > 0 {
            sets.append(", ");
        }
        sets.append(key.as_str());
        sets.append(" = ?");
        let ghost pp = params@;
        let sv = json_to_sql(&fields[i].1);
        params.push(sv);
        proof {
            let parts = col_list(fs.take(i as int)).map_values(|c: Seq<char>| set_piece(c));
            lemma_join_push(parts, ", "@, set_piece(fs[i as int].0@));
            assert(col_list(fs.take(i + 1)).map_values(|c: Seq<char>| set_piece(c)) =~= parts.push(
                set_piece(fs[i as int].0@),
            ));
            assert(sets@ =~= join_texts(
                col_list(fs.take(i + 1)).map_values(|c: Seq<char>| set_piece(c)),
                ", "@,
            ));
            assert(views_of(pp.push(sv)) =~= views_of(pp).push(sv@));
            assert(field_params(fs.take(i + 1)) =~= field_params(fs.take(i as int)).push(
                coerce(fs[i as int].1),
            ));
            assert(views_of(params@) =~= field_params(fs.take(i + 1)));
        }
        i += 1;
    }
    proof {
        lemma_fields_err_skip(fs, fs.len() as int);
        assert(fs.skip(fs.len() as int) =~= Seq::<(String, JsonVal)>::empty());
        assert(fs.take(fs.len() as int) =~= fs);
    }
    if fields.len() > 0 {
        sets.append(", ");
    }
    sets.append("updated_at = datetime('now')");
    proof {
        let parts = col_list(fs).map_values(|c: Seq<char>| set_piece(c));
        lemma_join_push(parts, ", "@, "updated_at = datetime('now')"@);
        assert(sets@ =~= join_texts(update_sets(fs), ", "@));
    }
    let idv = SqlVal::Text(id.to_owned());
    let ghost pp = params@;
    params.push(idv);
    proof {
        assert(views_of(params@) =~= views_of(pp).push(GSqlVal::Text(id@)));
    }
    let mut sql = "UPDATE ".to_owned();
    sql.append(table);
    sql.append(" SET ");
    sql.append(sets.as_str());
    sql.append(" WHERE id = ?");
    proof {
        assert(sql@ =~= update_sql(table@, fs));
    }
    Ok((sql, params))
}

/// Builds the DELETE keyed by the bound identifier.
pub fn build_delete(table: &str) -> (r: String)
    requires
        table_allowed(table@),
    ensures
        r@ == delete_sql(table@),
{
    let mut sql = "DELETE FROM ".to_owned();
    sql.append(table);
    sql.append(" WHERE id = ?");
    proof {
        assert(sql@ =~= delete_sql(table@));
    }
    sql
}

/// Builds the SELECT keyed by the bound identifier.
pub fn build_get_by_id(table: &str) -> (r: String)
    requires
        table_allowed(table@),
    ensures
        r@ == get_by_id_sql(table@),
{
    let mut sql = "SELECT * FROM ".to_owned();
    sql.append(table);
    sql.append(" WHERE id = ?");
    proof {
        assert(sql@ =~= get_by_id_sql(table@));
    }
    sql
}

/// Builds the SELECT over a whole table, as export walks the catalog.
pub fn build_select_all(table: &str) -> (r: String)
    requires
        table_allowed(table@),
    ensures
        r@ == select_all_sql(table@),
{
    let mut sql = "SELECT * FROM ".to_owned();
    sql.append(table);
    sql
}

/// Builds the metadata query that discovers a table's columns.
pub fn build_pragma_info(table: &str) -> (r: String)
    requires
        table_allowed(table@),
    ensures
        r@ == pragma_info_sql(table@),
{
    let mut sql = "PRAGMA table_info(".to_owned();
    sql.append(table);
    sql.append(")");
    proof {
        assert(sql@ =~= pragma_info_sql(table@));
    }
    sql
}

/// Builds the idempotent INSERT OR IGNORE that links one pair.
pub fn build_link(j: &str, c0: &str, c1: &str) -> (r: String)
    requires
        table_allowed(j@),
    ensures
        r@ == link_sql(j@, c0@, c1@),
{
    let mut sql = "INSERT OR IGNORE INTO ".to_owned();
    sql.append(j);
    sql.append(" (");
    sql.append(c0);
    sql.append(", ");
    sql.append(c1);
    sql.append(") VALUES (?, ?)");
    proof {
        assert(sql@ =~= link_sql(j@, c0@, c1@));
    }
    sql
}

/// Builds the DELETE that unlinks one pair, matching both columns exactly.
pub fn build_unlink(j: &str, c0: &str, c1: &str) -> (r: String)
    requires
        table_allowed(j@),
    ensures
        r@ == unlink_sql(j@, c0@, c1@),
{
    let mut sql = "DELETE FROM ".to_owned();
    sql.append(j);
    sql.append(" WHERE ");
    sql.append(c0);
    sql.append(" = ? AND ");
    sql.append(c1);
    sql.append(" = ?");
    proof {
        assert(sql@ =~= unlink_sql(j@, c0@, c1@));
    }
    sql
}

/// Builds the SELECT of the other column's values for one known column.
pub fn build_linked(j: &str, known: &str, other: &str) -> (r: String)
    requires
        table_allowed(j@),
    ensures
        r@ == linked_sql(j@, known@, other@),
{
    let mut sql = "SELECT ".to_owned();
    sql.append(other);
    sql.append(" FROM ");
    sql.append(j);
    sql.append(" WHERE ");
    sql.append(known);
    sql.append(" = ?");
    proof {
        assert(sql@ =~= linked_sql(j@, known@, other@));
    }
    sql
}

} // verus!
