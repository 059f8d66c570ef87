//! The values that cross the boundary with the engine: the type tags and the
//! nullable result union.

use vstd::prelude::*;
use vstd::utf8::encode_utf8;

verus! {

/// The four kinds of value that the engine exchanges.
#[derive(Clone, Copy, Debug, PartialEq, Eq, Structural)]
pub enum SqlType {
    String,
    Real,
    Int,
    Decimal,
}

/// A nullable value of one of the four kinds; `None` is SQL `NULL`.
///
/// A real is carried as the text that Rust's `{:?}` writes for the `f64`
/// (the shortest decimal that reads back to the same double, or `NaN`,
/// `inf`, `-inf`), so that the library never holds a float.
#[derive(Clone, Debug, PartialEq)]
pub enum SqlResult {
    String(Option<Vec<u8>>),
    Real(Option<String>),
    Int(Option<i64>),
    Decimal(Option<String>),
}

/// The payload-free signal of a row that could not be processed; the engine
/// turns it into `NULL` for that row.
#[derive(Clone, Copy, Debug, PartialEq, Eq, Structural)]
pub struct ProcessError;

impl SqlResult {
    /// The kind of the value, whether or not it is null.
    pub open spec fn kind(&self) -> SqlType {
        match self {
            SqlResult::String(_) => SqlType::String,
            SqlResult::Real(_) => SqlType::Real,
            SqlResult::Int(_) => SqlType::Int,
            SqlResult::Decimal(_) => SqlType::Decimal,
        }
    }

    pub open spec fn null(&self) -> bool {
        match self {
            SqlResult::String(v) => v is None,
            SqlResult::Real(v) => v is None,
            SqlResult::Int(v) => v is None,
            SqlResult::Decimal(v) => v is None,
        }
    }

    /// The bytes of a non-null string or decimal.
    pub open spec fn bytes(&self) -> Option<Seq<u8>> {
        match self {
            SqlResult::String(Some(b)) => Some(b@),
            SqlResult::Decimal(Some(t)) => Some(encode_utf8(t@)),
            _ => None,
        }
    }

    /// The kind of the value, whether or not it is null.
    pub fn sql_type(&self) -> (r: SqlType)
        ensures
            r == self.kind(),
    {
        match self {
            SqlResult::String(_) => SqlType::String,
            SqlResult::Real(_) => SqlType::Real,
            SqlResult::Int(_) => SqlType::Int,
            SqlResult::Decimal(_) => SqlType::Decimal,
        }
    }

    pub fn is_null(&self) -> (r: bool)
        ensures
            r == self.null(),
    {
        match self {
            SqlResult::String(v) => v.is_none(),
            SqlResult::Real(v) => v.is_none(),
            SqlResult::Int(v) => v.is_none(),
            SqlResult::Decimal(v) => v.is_none(),
        }
    }

    /// The integer, if this is a non-null integer.
    pub fn as_int(&self) -> (r: Option<i64>)
        ensures
            r == (match self {
                SqlResult::Int(v) => *v,
                _ => None,
            }),
    {
        match self {
            SqlResult::Int(v) => *v,
            _ => None,
        }
    }

    /// The bytes of a non-null string or decimal, borrowed.
    pub fn as_bytes(&self) -> (r: Option<&[u8]>)
        ensures
            r matches Some(b) ==> self.bytes() == Some(b@),
            r is None ==> self.bytes() is None,
    {
        match self {
            SqlResult::String(Some(b)) => Some(b.as_slice()),
            SqlResult::Decimal(Some(t)) => Some(t.as_str().as_bytes()),
            _ => None,
        }
    }
}

} // verus!
