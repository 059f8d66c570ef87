//! `uuid_to_bin`: the 16 bytes of a UUID given as text.

use vstd::prelude::*;
use crate::args::{ArgList, Init, Process, SqlArg};
use crate::cfg::{CfgModel, UdfCfg};
use crate::sql::{ProcessError, SqlResult, SqlType};
use crate::text::{decimal, decimal_text, signed_decimal, signed_decimal_text};
use crate::udf::BasicUdf;
use crate::uuid_text::{
    all_hex, bytes_of_digits, hex_lower, hex_value, hyphenated_digits, hyphenated_text,
    hyphens_in_place, is_hex_digit, parse_uuid, simple_text, uuid_digits, uuid_text_ok,
};

verus! {

/// The number of bytes of a UUID.
pub const UUID_BYTES: usize = 16;

/// The number of bytes of a UUID, as the engine's length setting takes it.
pub const UUID_BYTES_U64: u64 = 16;

/// The message of `uuid_to_bin` called with `count` arguments.
pub open spec fn to_bin_arity_message(count: nat) -> Seq<char> {
    "uuid_to_bin takes 1 or 2 arguments but got "@ + decimal_text(count)
        + " (usage: `uuid_to_bin(str_uuid)` or `uuid_to_bin(str_uuid, swap)`)"@
}

/// The message of `uuid_to_bin` given a constant swap flag other than 0 or 1.
pub open spec fn swap_flag_message(v: int) -> Seq<char> {
    "uuid_to_bin's second argument must be 0 or 1; got "@ + signed_decimal_text(v)
}

/// Whether a constant second argument rules the call out at initialization.
pub open spec fn bad_swap_constant(args: Seq<SqlArg>) -> bool {
    args.len() == 2 && (args[1].value matches SqlResult::Int(Some(v)) && (v < 0 || v > 1))
}

/// Whether a row asks for the time fields to be swapped: a second argument
/// that is a non-null integer other than 0.
pub open spec fn swap_requested(args: Seq<SqlArg>) -> bool {
    args.len() > 1 && (args[1].value matches SqlResult::Int(Some(v)) && v != 0)
}

/// The byte order of `uuid_to_bin(x, 1)`: the high and middle time fields
/// first, then the low time field, then the rest as it is, so that time-based
/// UUIDs sort by time.
pub open spec fn swap_time_fields(u: Seq<u8>) -> Seq<u8> {
    u.subrange(6, 8) + u.subrange(4, 6) + u.subrange(0, 4) + u.subrange(8, 16)
}

/// The bytes of `uuid_to_bin` on a valid text `b`.
pub open spec fn binary_of(b: Seq<u8>, swap: bool) -> Seq<u8> {
    let u = bytes_of_digits(uuid_digits(b).unwrap());
    if swap {
        swap_time_fields(u)
    } else {
        u
    }
}

/// Converts a UUID text to its 16 bytes; a second argument of 1 puts the time
/// fields first.
#[derive(Debug, PartialEq, Eq)]
pub struct UuidToBin(pub [u8; 16]);

fn swapped(u: [u8; 16]) -> (r: [u8; 16])
    ensures
        r@ == swap_time_fields(u@),
{
    let r: [u8; 16] = [
        u[6],
        u[7],
        u[4],
        u[5],
        u[0],
        u[1],
        u[2],
        u[3],
        u[8],
        u[9],
        u[10],
        u[11],
        u[12],
        u[13],
        u[14],
        u[15],
    ];
    assert(r@ =~= swap_time_fields(u@));
    r
}

impl BasicUdf for UuidToBin {
    type Returns<'a> = &'a [u8];

    fn init(cfg: &mut UdfCfg<Init>, args: &mut ArgList<Init>) -> (r: Result<Self, String>)
        ensures
            r is Ok <==> 1 <= old(args)@.len() <= 2 && !bad_swap_constant(old(args)@),
            old(args)@.len() < 1 || old(args)@.len() > 2 ==> (r matches Err(m) && m@
                == to_bin_arity_message(old(args)@.len() as nat)),
            bad_swap_constant(old(args)@) ==> (r matches Err(m) && m@ == swap_flag_message(
                old(args)@[1].value->Int_0.unwrap() as int,
            )),
            r is Ok ==> final(cfg)@ == (CfgModel { max_len: 16, is_const: true, ..old(cfg)@ }),
            r is Err ==> final(cfg)@ == old(cfg)@,
            old(args)@.len() < 1 || old(args)@.len() > 2 ==> final(args)@ == old(args)@,
            r is Ok && old(args)@.len() == 1 ==> final(args)@ == old(args)@.update(
                0,
                SqlArg { arg_type: SqlType::String, ..old(args)@[0] },
            ),
            r is Ok && old(args)@.len() == 2 ==> final(args)@ == old(args)@.update(
                0,
                SqlArg { arg_type: SqlType::String, ..old(args)@[0] },
            ).update(1, SqlArg { arg_type: SqlType::Int, ..old(args)@[1] }),
    {
        if args.len() < 1 || args.len() > 2 {
            let mut m = String::from_str("uuid_to_bin takes 1 or 2 arguments but got ");
            m.append(decimal(args.len() as u64).as_str());
            m.append(" (usage: `uuid_to_bin(str_uuid)` or `uuid_to_bin(str_uuid, swap)`)");
            return Err(m);
        }
        args.set_type_coercion(0, SqlType::String);
        if args.len() == 2 {
            let constant = match args.get(1) {
                Some(arg) => arg.value().as_int(),
                None => None,
            };
            if let Some(val) = constant {
                // a constant flag can be checked once, here
                if val < 0 || val > 1 {
                    let mut m = String::from_str(
                        "uuid_to_bin's second argument must be 0 or 1; got ",
                    );
                    m.append(signed_decimal(val).as_str());
                    return Err(m);
                }
            }
            args.set_type_coercion(1, SqlType::Int);
        }
        cfg.set_is_const(true);
        cfg.set_max_len(UUID_BYTES_U64);
        Ok(UuidToBin([0u8; 16]))
    }

    fn process<'a>(
        &'a mut self,
        cfg: &UdfCfg<Process>,
        args: &ArgList<Process>,
        error: Option<u8>,
    ) -> (r: Result<&'a [u8], ProcessError>)
        ensures
            args@.len() == 0 ==> r is Err,
            args@.len() > 0 ==> (r is Ok <==> (args@[0].value.bytes() matches Some(b)
                && uuid_text_ok(b))),
            r matches Ok(t) ==> t@ == final(self).0@ && t@ == binary_of(
                args@[0].value.bytes().unwrap(),
                swap_requested(args@),
            ),
    {
        let input = match args.get(0) {
            Some(arg) => match arg.value().as_bytes() {
                Some(b) => b,
                None => return Err(ProcessError),
            },
            None => return Err(ProcessError),
        };
        let swap = match args.get(1) {
            Some(arg) => match arg.value().as_int() {
                Some(v) => v != 0,
                None => false,
            },
            None => false,
        };
        let bytes = match parse_uuid(input) {
            Some(b) => b,
            None => return Err(ProcessError),
        };
        self.0 = if swap {
            swapped(bytes)
        } else {
            bytes
        };
        Ok(self.0.as_slice())
    }
}

proof fn nibble_round_trip(n: int)
    requires
        0 <= n < 16,
    ensures
        is_hex_digit(hex_lower(n)),
        hex_value(hex_lower(n)) == n,
{
}

/// Reading back the text of any UUID gives its bytes: `uuid_to_bin` without
/// swap undoes what the generators write.
pub proof fn binary_of_generated_text(u: Seq<u8>)
    requires
        u.len() == 16,
    ensures
        uuid_text_ok(hyphenated_text(u)),
        binary_of(hyphenated_text(u), false) == u,
{
    let t = hyphenated_text(u);
    let s = simple_text(u);
    assert(hyphens_in_place(t));
    assert(hyphenated_digits(t) =~= s);
    assert(uuid_digits(t) == Some(s));
    assert forall|i: int| 0 <= i < 32 implies is_hex_digit(#[trigger] s[i]) by {
        let b = u[i / 2] as int;
        nibble_round_trip(b / 16);
        nibble_round_trip(b % 16);
    }
    assert(all_hex(s));
    assert forall|i: int| 0 <= i < 16 implies #[trigger] bytes_of_digits(s)[i] == u[i] by {
        let b = u[i] as int;
        nibble_round_trip(b / 16);
        nibble_round_trip(b % 16);
        assert((2 * i) / 2 == i);
        assert((2 * i + 1) / 2 == i);
        assert((2 * i) % 2 == 0);
        assert((2 * i + 1) % 2 == 1);
        assert((b / 16) * 16 + b % 16 == b) by (nonlinear_arith)
            requires
                0 <= b,
        ;
    }
    assert(bytes_of_digits(s) =~= u);
}

} // verus!
