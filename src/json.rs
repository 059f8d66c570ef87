//! JSON scalars as the library models them, and their rendering through
//! `serde_json`.

use vstd::prelude::*;
use serde_json::Value;

verus! {

/// One JSON value of an object's entry.
#[derive(Clone, Debug, PartialEq)]
pub enum JsonScalar {
    Null,
    Text(String),
    Int(i64),
    /// A number given as decimal text; it renders as `null` where
    /// `serde_json` cannot read it as a number.
    Number(String),
}

/// What a `JsonScalar` stands for.
pub enum JsonModel {
    Null,
    Text(Seq<char>),
    Int(int),
    Number(Seq<char>),
}

impl View for JsonScalar {
    type V = JsonModel;

    open spec fn view(&self) -> JsonModel {
        match self {
            JsonScalar::Null => JsonModel::Null,
            JsonScalar::Text(s) => JsonModel::Text(s@),
            JsonScalar::Int(i) => JsonModel::Int(*i as int),
            JsonScalar::Number(t) => JsonModel::Number(t@),
        }
    }
}

/// The entries of an object, as keys and models.
pub open spec fn entries_view(entries: Seq<(String, JsonScalar)>) -> Seq<(Seq<char>, JsonModel)> {
    entries.map_values(|e: (String, JsonScalar)| (e.0@, e.1@))
}

/// The compact JSON text that `serde_json` writes for an object of these
/// entries.
pub uninterp spec fn json_object_text(entries: Seq<(Seq<char>, JsonModel)>) -> Seq<char>;

/// The text that `String::from_utf8_lossy` makes of these bytes.
pub uninterp spec fn utf8_lossy(b: Seq<u8>) -> Seq<char>;

/// Relies on `serde_json`: the entries go into a `serde_json::Map` by
/// `insert` (ordered by key; of two entries with one key the later stays),
/// a number text becomes `Value::Number` where `Number::from_str` reads it
/// and `Value::Null` where it does not, and `Value::to_string` writes the
/// object compactly. An object without entries is written `{}`.
#[verifier::external_body]
pub(crate) fn object_text(entries: Vec<(String, JsonScalar)>) -> (r: String)
    ensures
        r@ == json_object_text(entries_view(entries@)),
        entries@.len() == 0 ==> r@ == "{}"@,
{
    let mut map = serde_json::Map::new();
    for (k, v) in entries {
        let v = match v {
            JsonScalar::Null => Value::Null,
            JsonScalar::Text(s) => Value::String(s),
            JsonScalar::Int(i) => Value::from(i),
            JsonScalar::Number(t) => t.parse().map(Value::Number).unwrap_or(Value::Null),
        };
        map.insert(k, v);
    }
    Value::Object(map).to_string()
}

/// Relies on `String::from_utf8_lossy`: the text of the bytes, with each
/// invalid sequence replaced by U+FFFD.
#[verifier::external_body]
pub(crate) fn lossy_text(b: &[u8]) -> (r: String)
    ensures
        r@ == utf8_lossy(b@),
{
    String::from_utf8_lossy(b).into_owned()
}

} // verus!
