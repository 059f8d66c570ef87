//! `jsonify`: its arguments as one JSON object, keyed by their labels.

use vstd::prelude::*;
use crate::args::{ArgList, Init, Process, SqlArg};
use crate::cfg::{CfgModel, UdfCfg};
use crate::json::{
    entries_view, json_object_text, lossy_text, object_text, utf8_lossy, JsonModel, JsonScalar,
};
use crate::sql::{ProcessError, SqlResult};
use crate::udf::BasicUdf;

verus! {

/// The largest value of a `BLOB` column, in bytes.
pub const MAX_BLOB_LEN: u64 = 65535;

/// The JSON value of one SQL value: text for a string (invalid UTF-8
/// replaced), a number for an integer, a decimal or a real, and `null` for a
/// null of any kind.
pub open spec fn json_model_of(v: SqlResult) -> JsonModel {
    match v {
        SqlResult::String(Some(b)) => JsonModel::Text(utf8_lossy(b@)),
        SqlResult::Real(Some(t)) => JsonModel::Number(t@),
        SqlResult::Int(Some(i)) => JsonModel::Int(i as int),
        SqlResult::Decimal(Some(t)) => JsonModel::Number(t@),
        _ => JsonModel::Null,
    }
}

/// The entries of the object that `jsonify` makes of `args`.
pub open spec fn json_entries(args: Seq<SqlArg>) -> Seq<(Seq<char>, JsonModel)> {
    args.map_values(|a: SqlArg| (a.attribute@, json_model_of(a.value)))
}

/// Converts one SQL value to its JSON value.
pub fn res_to_json_val(source: &SqlResult) -> (r: JsonScalar)
    ensures
        r@ == json_model_of(*source),
        r@ is Null <==> source.null(),
{
    match source {
        SqlResult::String(Some(b)) => JsonScalar::Text(lossy_text(b.as_slice())),
        SqlResult::Real(Some(t)) => JsonScalar::Number(t.clone()),
        SqlResult::Int(Some(i)) => JsonScalar::Int(*i),
        SqlResult::Decimal(Some(t)) => JsonScalar::Number(t.clone()),
        _ => JsonScalar::Null,
    }
}

/// In the object that `jsonify` makes, an entry is `null` exactly where its
/// argument is null.
pub proof fn json_nulls_where_sql_nulls(args: Seq<SqlArg>)
    ensures
        json_entries(args).len() == args.len(),
        forall|i: int|
            0 <= i < args.len() ==> ((#[trigger] json_entries(args)[i]).1 is Null
                <==> args[i].value.null()),
{
}

/// Turns its arguments into a JSON object, each keyed by its label.
#[derive(Debug)]
pub struct Jsonify(pub String);

impl BasicUdf for Jsonify {
    type Returns<'a> = &'a str;

    fn init(cfg: &mut UdfCfg<Init>, args: &mut ArgList<Init>) -> (r: Result<Self, String>)
        ensures
            r is Ok,
            final(cfg)@ == (CfgModel { max_len: MAX_BLOB_LEN, ..old(cfg)@ }),
            final(args)@ == old(args)@,
    {
        cfg.set_max_len(MAX_BLOB_LEN);
        Ok(Jsonify(String::new()))
    }

    fn process<'a>(
        &'a mut self,
        cfg: &UdfCfg<Process>,
        args: &ArgList<Process>,
        error: Option<u8>,
    ) -> (r: Result<&'a str, ProcessError>)
        ensures
            r matches Ok(t) && t@ == final(self).0@ && t@ == json_object_text(
                json_entries(args@),
            ),
            args@.len() == 0 ==> (r matches Ok(t) && t@ == "{}"@),
    {
        let mut entries: Vec<(String, JsonScalar)> = Vec::new();
        let n = args.len();
        let mut i: usize = 0;
        while i < n
            invariant
                n == args@.len(),
                i <= n,
                entries_view(entries@) == json_entries(args@.subrange(0, i as int)),
            decreases n - i,
        {
            let a = match args.get(i) {
                Some(a) => a,
                None => return Err(ProcessError),
            };
            let key = a.attribute().to_owned();
            let value = res_to_json_val(a.value());
            let ghost before = entries@;
            entries.push((key, value));
            proof {
                let cur = args@.subrange(0, i + 1);
                let prev = args@.subrange(0, i as int);
                assert(entries@ == before.push((key, value)));
                assert(entries_view(before).len() == before.len());
                assert(json_entries(prev).len() == i);
                assert(before.len() == i);
                assert forall|j: int| 0 <= j < i implies #[trigger] entries_view(entries@)[j]
                    == json_entries(cur)[j] by {
                    assert(entries@[j] == before[j]);
                    assert(cur[j] == prev[j]);
                    assert(entries_view(before)[j] == json_entries(prev)[j]);
                }
                assert(entries_view(entries@)[i as int] == json_entries(cur)[i as int]);
                assert(entries_view(entries@) =~= json_entries(cur));
            }
            i = i + 1;
        }
        assert(args@.subrange(0, n as int) =~= args@);
        self.0 = object_text(entries);
        Ok(self.0.as_str())
    }
}

} // verus!
