use vstd::prelude::*;
use crate::trusted::{compact_text_of, to_compact_text};

verus! {

/// A loosely-typed external value: the generic exchange format of the library.
///
/// A non-integral number is carried as an opaque `serde_json::Number`; the
/// library never computes with it, it only moves it between the caller and
/// the store.
#[derive(Debug, PartialEq)]
pub enum JsonVal {
    Null,
    Bool(bool),
    Int(i64),
    Float(serde_json::Number),
    Text(String),
    Arr(Vec<JsonVal>),
    Obj(Vec<(String, JsonVal)>),
}

/// A database-native scalar, as it is bound to or read from a statement.
/// `Real` carries the floating-point value as an opaque number.
#[derive(Debug, PartialEq)]
pub enum SqlVal {
    Null,
    Int(i64),
    Real(serde_json::Number),
    Text(String),
    Blob(Vec<u8>),
}

/// Ghost image of a database scalar.
pub ghost enum GSqlVal {
    Null,
    Int(int),
    Real(serde_json::Number),
    Text(Seq<char>),
    Blob(Seq<u8>),
}

impl View for SqlVal {
    type V = GSqlVal;

    open spec fn view(&self) -> GSqlVal {
        match self {
            SqlVal::Null => GSqlVal::Null,
            SqlVal::Int(i) => GSqlVal::Int(*i as int),
            SqlVal::Real(n) => GSqlVal::Real(*n),
            SqlVal::Text(s) => GSqlVal::Text(s@),
            SqlVal::Blob(b) => GSqlVal::Blob(b@),
        }
    }
}

/// The views of a sequence of scalars.
pub open spec fn views_of(ps: Seq<SqlVal>) -> Seq<GSqlVal> {
    ps.map_values(|p: SqlVal| p@)
}

/// The total mapping from an external value to a database scalar:
/// null stays null, a boolean becomes 0 or 1, numbers keep their kind,
/// text passes verbatim, and a composite value is stored as its canonical
/// textual serialization.
pub open spec fn coerce(v: JsonVal) -> GSqlVal {
    match v {
        JsonVal::Null => GSqlVal::Null,
        JsonVal::Bool(b) => GSqlVal::Int(if b { 1int } else { 0int }),
        JsonVal::Int(i) => GSqlVal::Int(i as int),
        JsonVal::Float(n) => GSqlVal::Real(n),
        JsonVal::Text(s) => GSqlVal::Text(s@),
        JsonVal::Arr(_) => GSqlVal::Text(compact_text_of(v)),
        JsonVal::Obj(_) => GSqlVal::Text(compact_text_of(v)),
    }
}

/// Maps one external value to the database scalar it is bound as.
pub fn json_to_sql(v: &JsonVal) -> (r: SqlVal)
    ensures
        r@ == coerce(*v),
{
    match v {
        JsonVal::Null => SqlVal::Null,
        JsonVal::Bool(b) => SqlVal::Int(if *b { 1 } else { 0 }),
        JsonVal::Int(i) => SqlVal::Int(*i),
        JsonVal::Float(n) => SqlVal::Real(n.clone()),
        JsonVal::Text(s) => SqlVal::Text(s.clone()),
        JsonVal::Arr(_) => SqlVal::Text(to_compact_text(v)),
        JsonVal::Obj(_) => SqlVal::Text(to_compact_text(v)),
    }
}

/// The decimal digits of a natural number.
pub open spec fn dec_digits(n: nat) -> Seq<char>
    decreases n,
{
    if n < 10 {
        seq![digit_char(n)]
    } else {
        dec_digits(n / 10).push(digit_char(n % 10))
    }
}

/// The character for one decimal digit.
pub open spec fn digit_char(d: nat) -> char {
    ((48 + d % 10) as u8) as char
}

/// The decimal rendering of a signed number.
pub open spec fn dec_i64(n: int) -> Seq<char> {
    if n < 0 {
        seq!['-'] + dec_digits((-n) as nat)
    } else {
        dec_digits(n as nat)
    }
}

/// Appends the decimal digits of a number to a text under construction.
fn push_digits(m: u64, out: &mut String)
    ensures
        final(out)@ == old(out)@ + dec_digits(m as nat),
    decreases m,
{
    if m >= 10 {
        push_digits(m / 10, out);
    }
    let ghost mid = out@;
    let d = m % 10;
    if d == 0 {
        out.append("0");
    } else if d == 1 {
        out.append("1");
    } else if d == 2 {
        out.append("2");
    } else if d == 3 {
        out.append("3");
    } else if d == 4 {
        out.append("4");
    } else if d == 5 {
        out.append("5");
    } else if d == 6 {
        out.append("6");
    } else if d == 7 {
        out.append("7");
    } else if d == 8 {
        out.append("8");
    } else {
        out.append("9");
    }
    proof {
        reveal_strlit("0");
        reveal_strlit("1");
        reveal_strlit("2");
        reveal_strlit("3");
        reveal_strlit("4");
        reveal_strlit("5");
        reveal_strlit("6");
        reveal_strlit("7");
        reveal_strlit("8");
        reveal_strlit("9");
        assert(out@ =~= mid + seq![digit_char((m % 10) as nat)]);
        if m >= 10 {
            assert(out@ =~= old(out)@ + dec_digits(m as nat));
        } else {
            assert(dec_digits(m as nat) =~= seq![digit_char(m as nat)]);
            assert(out@ =~= old(out)@ + dec_digits(m as nat));
        }
    }
}

/// The decimal rendering of an unsigned machine number.
pub fn usize_to_string(n: usize) -> (r: String)
    ensures
        r@ == dec_digits(n as nat),
{
    let mut s = String::new();
    push_digits(n as u64, &mut s);
    proof {
        assert(s@ =~= dec_digits(n as nat));
    }
    s
}

/// The decimal rendering of a signed number: a minus sign when negative,
/// then the digits of the magnitude.
pub fn i64_to_string(n: i64) -> (r: String)
    ensures
        r@ == dec_i64(n as int),
{
    let mut s = String::new();
    if n < 0 {
        s.append("-");
        let m: u64 = ((-(n + 1)) as u64) + 1;
        proof {
            assert(m as nat == (-(n as int)) as nat);
        }
        push_digits(m, &mut s);
        proof {
            reveal_strlit("-");
            assert(s@ =~= dec_i64(n as int));
        }
    } else {
        push_digits(n as u64, &mut s);
        proof {
            assert(s@ =~= dec_i64(n as int));
        }
    }
    s
}

/// The placeholder text shown in place of a binary blob of `n` bytes.
pub open spec fn blob_placeholder(n: nat) -> Seq<char> {
    "[blob "@ + dec_digits(n) + " bytes]"@
}

/// How a database scalar is presented back to the caller: null, integers,
/// floating-point numbers and text pass unchanged, and a blob becomes a
/// placeholder carrying its byte length.
pub open spec fn scalar_materialized(g: GSqlVal, r: JsonVal) -> bool {
    match g {
        GSqlVal::Null => r == JsonVal::Null,
        GSqlVal::Int(i) => r matches JsonVal::Int(j) && j as int == i,
        GSqlVal::Real(n) => r == JsonVal::Float(n),
        GSqlVal::Text(s) => r matches JsonVal::Text(t) && t@ == s,
        GSqlVal::Blob(bs) => r matches JsonVal::Text(t) && t@ == blob_placeholder(bs.len() as nat),
    }
}

/// Maps one database scalar back to an external value.
pub fn sql_to_json(v: &SqlVal) -> (r: JsonVal)
    ensures
        scalar_materialized(v@, r),
{
    match v {
        SqlVal::Null => JsonVal::Null,
        SqlVal::Int(i) => JsonVal::Int(*i),
        SqlVal::Real(n) => JsonVal::Float(n.clone()),
        SqlVal::Text(s) => JsonVal::Text(s.clone()),
        SqlVal::Blob(b) => {
            let mut t = "[blob ".to_owned();
            let digits = usize_to_string(b.len());
            t.append(digits.as_str());
            t.append(" bytes]");
            proof {
                assert(t@ == blob_placeholder(b@.len() as nat));
            }
            JsonVal::Text(t)
        },
    }
}

/// One materialized row: every column name kept, every scalar presented.
pub open spec fn row_materialized(src: Seq<(String, SqlVal)>, dst: Seq<(String, JsonVal)>) -> bool {
    dst.len() == src.len() && forall|i: int|
        0 <= i < src.len() ==> dst[i].0@ == src[i].0@ && scalar_materialized(src[i].1@, dst[i].1)
}

/// A whole result set materialized row by row.
pub open spec fn rows_materialized(
    src: Seq<Seq<(String, SqlVal)>>,
    dst: Seq<Seq<(String, JsonVal)>>,
) -> bool {
    dst.len() == src.len() && forall|i: int|
        0 <= i < src.len() ==> row_materialized(src[i], dst[i])
}

/// Converts one raw row into a record of external values.
pub fn row_to_record(row: &Vec<(String, SqlVal)>) -> (r: Vec<(String, JsonVal)>)
    ensures
        row_materialized(row@, r@),
{
    let mut out: Vec<(String, JsonVal)> = Vec::new();
    let mut i: usize = 0;
    while i < row.len()
        invariant
            i <= row.len(),
            out@.len() == i,
            forall|k: int|
                0 <= k < i ==> out@[k].0@ == row@[k].0@ && scalar_materialized(
                    row@[k].1@,
                    out@[k].1,
                ),
        decreases row.len() - i,
    {
        let name = row[i].0.clone();
        let val = sql_to_json(&row[i].1);
        out.push((name, val));
        i += 1;
    }
    out
}

/// Converts a whole raw result set into records.
pub fn materialize_rows(rows: &Vec<Vec<(String, SqlVal)>>) -> (r: Vec<Vec<(String, JsonVal)>>)
    ensures
        rows_materialized(
            rows@.map_values(|x: Vec<(String, SqlVal)>| x@),
            r@.map_values(|x: Vec<(String, JsonVal)>| x@),
        ),
{
    let mut out: Vec<Vec<(String, JsonVal)>> = Vec::new();
    let mut i: usize = 0;
    while i < rows.len()
        invariant
            i <= rows.len(),
            out@.len() == i,
            forall|k: int| 0 <= k < i ==> row_materialized(rows@[k]@, out@[k]@),
        decreases rows.len() - i,
    {
        let rec = row_to_record(&rows[i]);
        out.push(rec);
        i += 1;
    }
    out
}

} // verus!
