//! `uuid_is_valid`: whether a text, hyphens aside, is a UUID.

use vstd::prelude::*;
use crate::args::{ArgList, Init, Process, SqlArg};
use crate::cfg::UdfCfg;
use crate::sql::{ProcessError, SqlResult, SqlType};
use crate::text::arity_message;
use crate::udf::BasicUdf;
use crate::uuid_text::{
    all_hex, hyphenated_text, hyphens_in_place, is_hex_digit, not_hyphen, parse_uuid,
    simple_text, strip_hyphens, uuid_digits, uuid_text_ok, without_hyphens,
};
use crate::validate_arg_count;

verus! {

broadcast use vstd::seq_lib::group_filter_ensures;

/// Checks whether its one argument is a UUID: 1 if so, 0 if not.
#[derive(Debug, PartialEq, Eq)]
pub struct UuidIsValid;

/// The result of `uuid_is_valid` on `v`: 1 where the bytes of `v`, with the
/// hyphens taken out, are the text of a UUID; 0 otherwise, null included.
pub open spec fn validity(v: SqlResult) -> i64 {
    match v.bytes() {
        Some(b) => if uuid_text_ok(without_hyphens(b)) {
            1
        } else {
            0
        },
        None => 0,
    }
}

impl BasicUdf for UuidIsValid {
    type Returns<'a> = i64;

    fn init(cfg: &mut UdfCfg<Init>, args: &mut ArgList<Init>) -> (r: Result<Self, String>)
        ensures
            r is Ok <==> old(args)@.len() == 1,
            r matches Err(m) ==> m@ == arity_message(
                "uuid_is_valid"@,
                1,
                old(args)@.len() as nat,
            ),
            r is Ok ==> final(args)@ == old(args)@.update(
                0,
                SqlArg { arg_type: SqlType::String, ..old(args)@[0] },
            ),
            r is Err ==> final(args)@ == old(args)@,
            final(cfg)@ == old(cfg)@,
    {
        match validate_arg_count(args.len(), 1, "uuid_is_valid") {
            Err(m) => Err(m),
            Ok(()) => {
                args.set_type_coercion(0, SqlType::String);
                Ok(UuidIsValid)
            },
        }
    }

    fn process<'a>(
        &'a mut self,
        cfg: &UdfCfg<Process>,
        args: &ArgList<Process>,
        error: Option<u8>,
    ) -> (r: Result<i64, ProcessError>)
        ensures
            args@.len() == 0 ==> r == Err::<i64, ProcessError>(ProcessError),
            args@.len() > 0 ==> r == Ok::<i64, ProcessError>(validity(args@[0].value)),
    {
        let arg = match args.get(0) {
            Some(a) => a,
            None => return Err(ProcessError),
        };
        let bytes = match arg.value().as_bytes() {
            Some(b) => b,
            None => return Ok(0),
        };
        let digits = strip_hyphens(bytes);
        match parse_uuid(digits.as_slice()) {
            Some(_) => Ok(1),
            None => Ok(0),
        }
    }
}

proof fn no_hyphens_unchanged(s: Seq<u8>)
    requires
        forall|i: int| 0 <= i < s.len() ==> not_hyphen(#[trigger] s[i]),
    ensures
        without_hyphens(s) == s,
    decreases s.len(),
{
    reveal(Seq::filter);
    if s.len() > 0 {
        no_hyphens_unchanged(s.drop_last());
        assert(s.drop_last().push(s.last()) =~= s);
    }
}

/// The text of any UUID, as the generators write it, passes the validator.
pub proof fn generated_text_validates(u: Seq<u8>)
    requires
        u.len() == 16,
    ensures
        uuid_text_ok(without_hyphens(hyphenated_text(u))),
        without_hyphens(hyphenated_text(u)) == simple_text(u),
{
    broadcast use vstd::seq::Seq::filter_distributes_over_add;

    let s = simple_text(u);
    let h = seq![0x2du8];
    assert forall|i: int| 0 <= i < 32 implies is_hex_digit(#[trigger] s[i]) && not_hyphen(s[i]) by {
        let b = u[i / 2] as int;
        assert(b / 16 < 16 && b % 16 < 16);
    }
    no_hyphens_unchanged(s.subrange(0, 8));
    no_hyphens_unchanged(s.subrange(8, 12));
    no_hyphens_unchanged(s.subrange(12, 16));
    no_hyphens_unchanged(s.subrange(16, 20));
    no_hyphens_unchanged(s.subrange(20, 32));
    reveal(Seq::filter);
    assert(without_hyphens(h) =~= Seq::<u8>::empty()) by {
        reveal_with_fuel(Seq::filter, 2);
        assert(h.drop_last() =~= Seq::<u8>::empty());
    }
    assert(without_hyphens(hyphenated_text(u)) =~= s);
}

/// A text whose bytes, hyphens aside, are not 32 hexadecimal digits fails the
/// validator: so fails one of the wrong length, or one with a byte that is
/// neither a hexadecimal digit nor a hyphen.
pub proof fn corrupted_text_fails(s: Seq<u8>)
    requires
        without_hyphens(s).len() != 32 || exists|i: int|
            0 <= i < s.len() && !is_hex_digit(#[trigger] s[i]) && s[i] != 0x2d,
    ensures
        !uuid_text_ok(without_hyphens(s)),
{
    let w = without_hyphens(s);
    assert forall|i: int| 0 <= i < w.len() implies not_hyphen(#[trigger] w[i]) by {
        s.lemma_filter_pred(|c: u8| not_hyphen(c), i);
    }
    assert(!hyphens_in_place(w)) by {
        if w.len() == 36 {
            assert(not_hyphen(w[8]));
        }
    }
    assert(!(w.len() == 38 && hyphens_in_place(w.subrange(1, 37)))) by {
        if w.len() == 38 {
            assert(not_hyphen(w[9]));
            assert(w.subrange(1, 37)[8] == w[9]);
        }
    }
    assert(!(w.len() == 45 && hyphens_in_place(w.subrange(9, 45)))) by {
        if w.len() == 45 {
            assert(not_hyphen(w[17]));
            assert(w.subrange(9, 45)[8] == w[17]);
        }
    }
    if w.len() == 32 {
        let i = choose|i: int| 0 <= i < s.len() && !is_hex_digit(#[trigger] s[i]) && s[i] != 0x2d;
        s.lemma_filter_contains(|c: u8| not_hyphen(c), i);
        let j = choose|j: int| 0 <= j < w.len() && w[j] == s[i];
        assert(!is_hex_digit(w[j]));
        assert(uuid_digits(w) == Some(w));
        assert(!all_hex(w));
    }
}

} // verus!
