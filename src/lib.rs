//! A typed binding layer for SQL user-defined functions, with the UUID and
//! JSON functions built on it.

use vstd::prelude::*;

pub mod args;
pub mod cfg;
pub mod convert;
pub mod generate;
pub mod json;
pub mod jsonify;
pub mod namespaces;
pub mod sql;
pub mod statement;
pub mod text;
pub mod udf;
pub mod uuid_text;
pub mod valid;

use crate::text::{arity_message, decimal, decimal_text, has_infix};

verus! {

/// Checks the number of arguments that a function received against the number
/// that it takes; on a mismatch the error names the function and both counts.
pub fn validate_arg_count(count: usize, expected: usize, fn_name: &str) -> (r: Result<(), String>)
    ensures
        r is Ok <==> count == expected,
        r matches Err(m) ==> m@ == arity_message(fn_name@, expected as nat, count as nat),
{
    if count != expected {
        let pluralized = if expected == 1 {
            "argument"
        } else {
            "arguments"
        };
        let mut m = String::from_str(fn_name);
        m.append(" takes ");
        m.append(decimal(expected as u64).as_str());
        m.append(" ");
        m.append(pluralized);
        m.append(" but got ");
        m.append(decimal(count as u64).as_str());
        Err(m)
    } else {
        Ok(())
    }
}

/// A wrong-arity message names the function, the number of arguments that it
/// takes and the number that it got.
pub proof fn arity_message_names_counts(name: Seq<char>, expected: nat, count: nat)
    ensures
        has_infix(arity_message(name, expected, count), name),
        has_infix(arity_message(name, expected, count), decimal_text(expected)),
        has_infix(arity_message(name, expected, count), decimal_text(count)),
{
    reveal_strlit(" takes ");
    let m = arity_message(name, expected, count);
    let e = decimal_text(expected);
    let c = decimal_text(count);
    assert(m.subrange(0int, 0int + name.len()) =~= name);
    assert(m.subrange(name.len() + 7int, name.len() + 7int + e.len()) =~= e);
    assert(m.subrange(m.len() - c.len(), m.len() as int) =~= c);
}

} // verus!
