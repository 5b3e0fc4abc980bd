use vstd::prelude::*;
use crate::builder::{
    clause_params, clause_sql, select_err, update_sets, Filter, Sort, WhereClause,
};
use crate::err::GErr;
use crate::ident::table_allowed;
use crate::snapshot::tables_plan;
use crate::value::{GSqlVal, JsonVal};

verus! {

/// A table name outside the catalog fails every list operation with a
/// forbidden-table error, whatever the filter and sort say, before any SQL
/// text is assembled.
pub proof fn lemma_forbidden_table_rejected(table: Seq<char>, f: Option<Filter>, o: Option<Sort>)
    requires
        !table_allowed(table),
    ensures
        select_err(table, f, o) == Some(GErr::ForbiddenTable(table)),
{
}

/// An `IN` clause over an empty array renders as an always-false predicate
/// and binds nothing: the generated SQL is never the invalid `IN ()`.
pub proof fn lemma_in_empty_is_safe(c: WhereClause)
    requires
        c.op@ == "IN"@,
        c.value matches JsonVal::Arr(a) && a@.len() == 0,
    ensures
        clause_sql(c) == "1 = 0"@,
        clause_params(c) == Seq::<GSqlVal>::empty(),
{
    assert(clause_params(c) =~= Seq::<GSqlVal>::empty());
}

/// Every update statement sets the modification timestamp to the current
/// time, as its last SET assignment, even when the payload is empty.
pub proof fn lemma_update_always_touches_timestamp(fs: Seq<(String, JsonVal)>)
    ensures
        update_sets(fs).len() == fs.len() + 1,
        update_sets(fs).last() == "updated_at = datetime('now')"@,
{
}

/// A top-level key outside the catalog contributes nothing to an import:
/// the plan of a document with such a key removed is the plan of the
/// document itself, failures included.
pub proof fn lemma_import_ignores_unknown_tables(pairs: Seq<(String, JsonVal)>, i: int)
    requires
        0 <= i < pairs.len(),
        !table_allowed(pairs[i].0@),
    ensures
        tables_plan(pairs.remove(i)) == tables_plan(pairs),
    decreases pairs.len(),
{
    if i == pairs.len() - 1 {
        assert(pairs.remove(i) =~= pairs.drop_last());
    } else {
        let p2 = pairs.drop_last();
        lemma_import_ignores_unknown_tables(p2, i);
        assert(pairs.remove(i).drop_last() =~= p2.remove(i));
        assert(pairs.remove(i).last() == pairs.last());
    }
}

} // verus!
