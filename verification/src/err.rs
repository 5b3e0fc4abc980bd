use vstd::prelude::*;

verus! {

/// Ghost image of an error: the same cases with mathematical payloads.
pub ghost enum GErr {
    ForbiddenTable(Seq<char>),
    InvalidColumn(Seq<char>),
    UnsupportedOperator(Seq<char>),
    InvalidJunction(Seq<char>),
    ColumnNotInJunction(Seq<char>, Seq<char>),
    NotAnObject,
    NotAnArray(Seq<char>),
    RowNotAnObject,
    MultipleStatements,
    NotAReadQuery,
    NotReadOnly,
    Engine(Seq<char>),
}

/// Every way an operation of this library can fail.
///
/// Validation errors are produced before any SQL text is assembled;
/// `Engine` wraps a storage-level failure reported by the database.
#[derive(Debug, PartialEq)]
pub enum DbError {
    ForbiddenTable(String),
    InvalidColumn(String),
    UnsupportedOperator(String),
    InvalidJunction(String),
    ColumnNotInJunction(String, String),
    NotAnObject,
    NotAnArray(String),
    RowNotAnObject,
    MultipleStatements,
    NotAReadQuery,
    NotReadOnly,
    Engine(String),
}

impl View for DbError {
    type V = GErr;

    open spec fn view(&self) -> GErr {
        match self {
            DbError::ForbiddenTable(t) => GErr::ForbiddenTable(t@),
            DbError::InvalidColumn(c) => GErr::InvalidColumn(c@),
            DbError::UnsupportedOperator(o) => GErr::UnsupportedOperator(o@),
            DbError::InvalidJunction(t) => GErr::InvalidJunction(t@),
            DbError::ColumnNotInJunction(t, c) => GErr::ColumnNotInJunction(t@, c@),
            DbError::NotAnObject => GErr::NotAnObject,
            DbError::NotAnArray(t) => GErr::NotAnArray(t@),
            DbError::RowNotAnObject => GErr::RowNotAnObject,
            DbError::MultipleStatements => GErr::MultipleStatements,
            DbError::NotAReadQuery => GErr::NotAReadQuery,
            DbError::NotReadOnly => GErr::NotReadOnly,
            DbError::Engine(m) => GErr::Engine(m@),
        }
    }
}

impl DbError {
    /// A human-readable description of the error.
    pub fn message(&self) -> (r: String) {
        match self {
            DbError::ForbiddenTable(t) => concat_msg("table not allowed: ", t.as_str()),
            DbError::InvalidColumn(c) => concat_msg("invalid column name: ", c.as_str()),
            DbError::UnsupportedOperator(o) => concat_msg("unsupported operator: ", o.as_str()),
            DbError::InvalidJunction(t) => concat_msg("not a valid junction table: ", t.as_str()),
            DbError::ColumnNotInJunction(t, c) => {
                let mut m = concat_msg("junction table ", t.as_str());
                m.append(" has no column ");
                m.append(c.as_str());
                m
            },
            DbError::NotAnObject => "data must be a JSON object".to_owned(),
            DbError::NotAnArray(t) => concat_msg("must be an array: ", t.as_str()),
            DbError::RowNotAnObject => "every row must be an object".to_owned(),
            DbError::MultipleStatements => "aggregate allows a single SELECT query only".to_owned(),
            DbError::NotAReadQuery => "aggregate allows SELECT queries only".to_owned(),
            DbError::NotReadOnly => "aggregate allows read-only queries only".to_owned(),
            DbError::Engine(m) => m.clone(),
        }
    }
}

/// Two text pieces joined into one owned message.
pub fn concat_msg(prefix: &str, detail: &str) -> (r: String)
    ensures
        r@ == prefix@ + detail@,
{
    let mut m = prefix.to_owned();
    m.append(detail);
    m
}

} // verus!
