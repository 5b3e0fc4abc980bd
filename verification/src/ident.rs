use vstd::prelude::*;
use crate::err::{DbError, GErr};

verus! {

/// A character allowed in a column name: ASCII letter, digit, or underscore.
pub open spec fn word_char(c: char) -> bool {
    ('a' <= c && c <= 'z') || ('A' <= c && c <= 'Z') || ('0' <= c && c <= '9') || c == '_'
}

/// A column name is valid when it is non-empty and made of word characters
/// only. This is the sole defense against injection in identifier position,
/// where a value cannot be parameter-bound.
pub open spec fn valid_column_name(s: Seq<char>) -> bool {
    s.len() > 0 && forall|i: int| 0 <= i < s.len() ==> word_char(s[i])
}

/// The closed set of table names the layer may touch.
pub open spec fn table_allowed(t: Seq<char>) -> bool {
    ||| t == "projects"@
    ||| t == "tasks"@
    ||| t == "meetings"@
    ||| t == "clients"@
    ||| t == "suppliers"@
    ||| t == "contracts"@
    ||| t == "ledger_expenses"@
    ||| t == "subscriptions"@
    ||| t == "digital_assets"@
    ||| t == "quote_line_items"@
    ||| t == "business_targets"@
    ||| t == "client_projects"@
    ||| t == "client_contracts"@
    ||| t == "project_contracts"@
    ||| t == "ledger_projects"@
    ||| t == "ledger_suppliers"@
    ||| t == "supplier_projects"@
    ||| t == "asset_ledger_links"@
}

/// The catalog in its fixed declaration order, as export walks it.
pub open spec fn catalog_seq() -> Seq<Seq<char>> {
    seq![
        "projects"@,
        "tasks"@,
        "meetings"@,
        "clients"@,
        "suppliers"@,
        "contracts"@,
        "ledger_expenses"@,
        "subscriptions"@,
        "digital_assets"@,
        "quote_line_items"@,
        "business_targets"@,
        "client_projects"@,
        "client_contracts"@,
        "project_contracts"@,
        "ledger_projects"@,
        "ledger_suppliers"@,
        "supplier_projects"@,
        "asset_ledger_links"@,
    ]
}

/// Every name in the catalog is an allowed table name.
pub proof fn lemma_catalog_names_allowed(i: int)
    requires
        0 <= i < catalog_seq().len(),
    ensures
        table_allowed(catalog_seq()[i]),
{
}

/// The operators a filter clause may use.
pub open spec fn allowed_op(o: Seq<char>) -> bool {
    ||| o == "="@
    ||| o == "!="@
    ||| o == ">"@
    ||| o == "<"@
    ||| o == ">="@
    ||| o == "<="@
    ||| o == "LIKE"@
    ||| o == "IN"@
}

/// Character-for-character equality of two text slices.
pub fn str_eq(a: &str, b: &str) -> (r: bool)
    ensures
        r == (a@ == b@),
{
    let la = a.unicode_len();
    let lb = b.unicode_len();
    if la != lb {
        proof {
            assert(a@ != b@) by {
                if a@ == b@ {
                    assert(a@.len() == b@.len());
                }
            }
        }
        return false;
    }
    let mut i: usize = 0;
    while i < la
        invariant
            la == a@.len(),
            lb == b@.len(),
            la == lb,
            i <= la,
            forall|k: int| 0 <= k < i ==> a@[k] == b@[k],
        decreases la - i,
    {
        if a.get_char(i) != b.get_char(i) {
            return false;
        }
        i += 1;
    }
    proof {
        assert(a@ =~= b@);
    }
    true
}

/// Whether a name is a member of the fixed catalog.
pub fn table_in_catalog(t: &str) -> (r: bool)
    ensures
        r == table_allowed(t@),
{
    ||| str_eq(t, "projects")
    ||| str_eq(t, "tasks")
    ||| str_eq(t, "meetings")
    ||| str_eq(t, "clients")
    ||| str_eq(t, "suppliers")
    ||| str_eq(t, "contracts")
    ||| str_eq(t, "ledger_expenses")
    ||| str_eq(t, "subscriptions")
    ||| str_eq(t, "digital_assets")
    ||| str_eq(t, "quote_line_items")
    ||| str_eq(t, "business_targets")
    ||| str_eq(t, "client_projects")
    ||| str_eq(t, "client_contracts")
    ||| str_eq(t, "project_contracts")
    ||| str_eq(t, "ledger_projects")
    ||| str_eq(t, "ledger_suppliers")
    ||| str_eq(t, "supplier_projects")
    ||| str_eq(t, "asset_ledger_links")
}

/// Whether an operator belongs to the fixed allowed set.
pub fn op_in_allowed(o: &str) -> (r: bool)
    ensures
        r == allowed_op(o@),
{
    ||| str_eq(o, "=")
    ||| str_eq(o, "!=")
    ||| str_eq(o, ">")
    ||| str_eq(o, "<")
    ||| str_eq(o, ">=")
    ||| str_eq(o, "<=")
    ||| str_eq(o, "LIKE")
    ||| str_eq(o, "IN")
}

/// Succeeds exactly when the name is a member of the fixed catalog; any
/// other name is rejected before any SQL text is assembled.
pub fn validate_table(table: &str) -> (r: Result<(), DbError>)
    ensures
        r is Ok <==> table_allowed(table@),
        r matches Err(e) ==> e@ == GErr::ForbiddenTable(table@),
{
    if table_in_catalog(table) {
        Ok(())
    } else {
        Err(DbError::ForbiddenTable(table.to_owned()))
    }
}

/// Whether one character may appear in a column name.
pub fn is_word_char(c: char) -> (r: bool)
    ensures
        r == word_char(c),
{
    ('a' <= c && c <= 'z') || ('A' <= c && c <= 'Z') || ('0' <= c && c <= '9') || c == '_'
}

/// Succeeds exactly when the name is non-empty and made of ASCII letters,
/// digits and underscores; everything else is rejected.
pub fn validate_column(col: &str) -> (r: Result<(), DbError>)
    ensures
        r is Ok <==> valid_column_name(col@),
        r matches Err(e) ==> e@ == GErr::InvalidColumn(col@),
{
    let n = col.unicode_len();
    if n == 0 {
        return Err(DbError::InvalidColumn(col.to_owned()));
    }
    let mut i: usize = 0;
    while i < n
        invariant
            n == col@.len(),
            i <= n,
            forall|k: int| 0 <= k < i ==> word_char(col@[k]),
        decreases n - i,
    {
        if !is_word_char(col.get_char(i)) {
            return Err(DbError::InvalidColumn(col.to_owned()));
        }
        i += 1;
    }
    Ok(())
}

/// The catalog as executable names, in the same fixed order.
pub fn catalog_names() -> (r: Vec<&'static str>)
    ensures
        r@.len() == catalog_seq().len(),
        forall|i: int| 0 <= i < r@.len() ==> r@[i]@ == catalog_seq()[i],
{
    let mut v: Vec<&'static str> = Vec::new();
    v.push("projects");
    v.push("tasks");
    v.push("meetings");
    v.push("clients");
    v.push("suppliers");
    v.push("contracts");
    v.push("ledger_expenses");
    v.push("subscriptions");
    v.push("digital_assets");
    v.push("quote_line_items");
    v.push("business_targets");
    v.push("client_projects");
    v.push("client_contracts");
    v.push("project_contracts");
    v.push("ledger_projects");
    v.push("ledger_suppliers");
    v.push("supplier_projects");
    v.push("asset_ledger_links");
    proof {
        assert forall|i: int| 0 <= i < v@.len() implies v@[i]@ == catalog_seq()[i] by {
            assert(catalog_seq().len() == 18);
        }
    }
    v
}

} // verus!
