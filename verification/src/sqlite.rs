use vstd::prelude::*;
use vstd::string::StringExecFns;

use crate::error::{ErrorKind, GuestError};
use crate::text::clone_bytes;
use crate::value::GuestValue;

verus! {

/// An opaque guest-visible handle to an open relational connection; like
/// a store handle, it carries only the identity the runtime knows the
/// reference-counted host connection by.
#[derive(Clone, Copy, Debug, PartialEq, Eq, Structural)]
pub struct ConnectionHandle {
    pub id: u64,
}

/// A typed relational value: the closed lattice accepted as a query
/// parameter and produced in query results. A real number is carried as
/// its IEEE-754 binary64 bit pattern.
#[derive(Debug, PartialEq)]
pub enum SqlValue {
    Integer(i64),
    Real(u64),
    Text(String),
    Blob(Vec<u8>),
    Null,
}

/// A rendered query result: column names, and rows of typed values.
#[derive(Debug)]
pub struct QueryResultData {
    pub columns: Vec<String>,
    pub rows: Vec<Vec<SqlValue>>,
}

/// Whether a guest value lies in the query-parameter lattice
/// {integer, real, text, byte buffer, null}.
pub open spec fn is_query_parameter(v: GuestValue) -> bool {
    match v {
        GuestValue::Int(_) => true,
        GuestValue::Real(_) => true,
        GuestValue::Text(_) => true,
        GuestValue::Bytes(_) => true,
        GuestValue::Null => true,
        GuestValue::List(_) => false,
        GuestValue::Mapping(_) => false,
    }
}

/// The typed parameter a guest value classifies to, variant by variant.
pub open spec fn sql_value_matches(v: GuestValue, p: SqlValue) -> bool {
    match v {
        GuestValue::Int(i) => p matches SqlValue::Integer(j) && j == i,
        GuestValue::Real(b) => p matches SqlValue::Real(c) && c == b,
        GuestValue::Text(s) => p matches SqlValue::Text(t) && t@ == s@,
        GuestValue::Bytes(b) => p matches SqlValue::Blob(c) && c@ == b@,
        GuestValue::Null => p is Null,
        GuestValue::List(_) => false,
        GuestValue::Mapping(_) => false,
    }
}

/// The guest value a typed result value renders to, variant by variant.
pub open spec fn guest_value_matches_sql(p: SqlValue, g: GuestValue) -> bool {
    match p {
        SqlValue::Integer(i) => g matches GuestValue::Int(j) && j == i,
        SqlValue::Real(b) => g matches GuestValue::Real(c) && c == b,
        SqlValue::Text(s) => g matches GuestValue::Text(t) && t@ == s@,
        SqlValue::Blob(b) => g matches GuestValue::Bytes(c) && c@ == b@,
        SqlValue::Null => g is Null,
    }
}

/// Classifies one guest value as a query parameter.
///
/// Classification is attempted in a fixed order — integer, then real,
/// then text, then null, then byte buffer — and the first match wins;
/// each guest value matches at most one class. A guest list or mapping
/// matches none and is rejected as an invalid argument naming the
/// accepted set.
pub fn classify_parameter(v: &GuestValue) -> (r: Result<SqlValue, GuestError>)
    ensures
        is_query_parameter(*v) ==> (r matches Ok(p) && sql_value_matches(*v, p)),
        !is_query_parameter(*v) ==> (r matches Err(e) && e.kind == ErrorKind::InvalidArgument),
        v is List ==> (r matches Err(e) && e.message@
            == "Unable to use a list as a SQLite `execute` parameter -- expected `int`, `float`, `bytes`, `string`, or `None`"@),
        v is Mapping ==> (r matches Err(e) && e.message@
            == "Unable to use a mapping as a SQLite `execute` parameter -- expected `int`, `float`, `bytes`, `string`, or `None`"@),
{
    match v {
        GuestValue::Int(i) => Ok(SqlValue::Integer(*i)),
        GuestValue::Real(b) => Ok(SqlValue::Real(*b)),
        GuestValue::Text(s) => Ok(SqlValue::Text(s.clone())),
        GuestValue::Null => Ok(SqlValue::Null),
        GuestValue::Bytes(b) => Ok(SqlValue::Blob(clone_bytes(b))),
        GuestValue::List(_) => Err(
            GuestError::invalid_argument(
                String::from_str(
                    "Unable to use a list as a SQLite `execute` parameter -- expected `int`, `float`, `bytes`, `string`, or `None`",
                ),
            ),
        ),
        GuestValue::Mapping(_) => Err(
            GuestError::invalid_argument(
                String::from_str(
                    "Unable to use a mapping as a SQLite `execute` parameter -- expected `int`, `float`, `bytes`, `string`, or `None`",
                ),
            ),
        ),
    }
}

/// Classifies a positional parameter list, left to right, failing on the
/// first guest value outside the parameter lattice.
pub fn classify_parameters(params: &Vec<GuestValue>) -> (r: Result<Vec<SqlValue>, GuestError>)
    ensures
        r is Ok <==> (forall|i: int|
            0 <= i < params@.len() ==> is_query_parameter(#[trigger] params@[i])),
        r matches Ok(ps) ==> (ps@.len() == params@.len() && (forall|i: int|
            0 <= i < params@.len() ==> sql_value_matches(#[trigger] params@[i], ps@[i]))),
        r matches Err(e) ==> e.kind == ErrorKind::InvalidArgument,
{
    let mut ps: Vec<SqlValue> = Vec::new();
    let mut i: usize = 0;
    while i < params.len()
        invariant
            i <= params@.len(),
            ps@.len() == i,
            forall|k: int| 0 <= k < i ==> is_query_parameter(#[trigger] params@[k]),
            forall|k: int| 0 <= k < i ==> sql_value_matches(#[trigger] params@[k], ps@[k]),
        decreases params@.len() - i,
    {
        match classify_parameter(&params[i]) {
            Ok(p) => {
                ps.push(p);
            },
            Err(e) => {
                return Err(e);
            },
        }
        i = i + 1;
    }
    Ok(ps)
}

/// Renders one result row as a guest list of values.
fn row_to_guest(row: &Vec<SqlValue>) -> (r: Vec<GuestValue>)
    ensures
        r@.len() == row@.len(),
        forall|j: int| 0 <= j < row@.len() ==> guest_value_matches_sql(
            #[trigger] row@[j],
            r@[j],
        ),
{
    let mut out: Vec<GuestValue> = Vec::new();
    let mut j: usize = 0;
    while j < row.len()
        invariant
            j <= row@.len(),
            out@.len() == j,
            forall|k: int| 0 <= k < j ==> guest_value_matches_sql(
                #[trigger] row@[k],
                out@[k],
            ),
        decreases row@.len() - j,
    {
        let g = match &row[j] {
            SqlValue::Integer(i) => GuestValue::Int(*i),
            SqlValue::Real(b) => GuestValue::Real(*b),
            SqlValue::Text(s) => GuestValue::Text(s.clone()),
            SqlValue::Blob(b) => GuestValue::Bytes(clone_bytes(b)),
            SqlValue::Null => GuestValue::Null,
        };
        out.push(g);
        j = j + 1;
    }
    out
}

/// Renders the rows of a query result as an ordered sequence of ordered
/// sequences of guest values; the column names are a separate ordered
/// sequence, read directly from [`QueryResultData::columns`].
pub fn rows_to_guest(result: &QueryResultData) -> (r: Vec<Vec<GuestValue>>)
    ensures
        r@.len() == result.rows@.len(),
        forall|i: int| 0 <= i < result.rows@.len() ==> (#[trigger] r@[i])@.len()
            == result.rows@[i]@.len(),
        forall|i: int, j: int|
            0 <= i < result.rows@.len() && 0 <= j < result.rows@[i]@.len()
                ==> guest_value_matches_sql(
                #[trigger] result.rows@[i]@[j],
                r@[i]@[j],
            ),
{
    let mut out: Vec<Vec<GuestValue>> = Vec::new();
    let mut i: usize = 0;
    while i < result.rows.len()
        invariant
            i <= result.rows@.len(),
            out@.len() == i,
            forall|k: int| 0 <= k < i ==> (#[trigger] out@[k])@.len()
                == result.rows@[k]@.len(),
            forall|k: int, j: int|
                0 <= k < i && 0 <= j < result.rows@[k]@.len() ==> guest_value_matches_sql(
                    #[trigger] result.rows@[k]@[j],
                    out@[k]@[j],
                ),
        decreases result.rows@.len() - i,
    {
        let row = row_to_guest(&result.rows[i]);
        out.push(row);
        i = i + 1;
    }
    out
}

} // verus!
