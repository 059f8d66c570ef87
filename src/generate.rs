//! The UUID generators. Each keeps its result in a buffer of its own and
//! hands out a borrow of it, so that a row costs no allocation.

use vstd::prelude::*;
use crate::args::{ArgList, Init, Process, SqlArg};
use crate::cfg::{CfgModel, UdfCfg};
use crate::sql::{ProcessError, SqlType};
use crate::text::{arity_message, decimal, decimal_text};
use crate::udf::BasicUdf;
use crate::uuid_text::{generated_text, hyphenated_lower, new_v4, now_v1, now_v6, now_v7};
use crate::validate_arg_count;

verus! {

/// The length of a hyphenated UUID.
pub const HYPHENATED_UUID_LEN: usize = 36;

/// The length of a hyphenated UUID, as the engine's length setting takes it.
pub const HYPHENATED_UUID_LEN_U64: u64 = 36;

/// Relies on `rand::random`: a value drawn from the thread's generator;
/// nothing is known of it.
pub assume_specification<T>[ rand::random::<T> ]() -> (r: T)
    where
        rand::distributions::Standard: rand::distributions::Distribution<T>,
;

/// Relies on `mac_address::get_mac_address`: the address of a network
/// interface of this machine, where one can be read.
#[verifier::external_body]
fn hardware_mac() -> (r: Option<[u8; 6]>) {
    match mac_address::get_mac_address() {
        Ok(Some(m)) => Some(m.bytes()),
        Ok(None) => None,
        Err(_) => None,
    }
}

/// The initialization that the generators without arguments share.
pub fn init_generator(cfg: &mut UdfCfg<Init>, args: &ArgList<Init>, fn_name: &str) -> (r: Result<
    (),
    String,
>)
    ensures
        r is Ok <==> args@.len() == 0,
        r matches Err(m) ==> m@ == arity_message(fn_name@, 0, args@.len() as nat),
        r is Ok ==> final(cfg)@ == (CfgModel { max_len: 36, ..old(cfg)@ }),
        r is Err ==> final(cfg)@ == old(cfg)@,
{
    match validate_arg_count(args.len(), 0, fn_name) {
        Err(m) => Err(m),
        Ok(()) => {
            cfg.set_max_len(HYPHENATED_UUID_LEN_U64);
            Ok(())
        },
    }
}

/// A version 1 UUID from the clock and this machine's hardware address (all
/// zeros where none can be read).
#[derive(Debug)]
pub struct UuidGenerateV1 {
    /// Read once, at initialization.
    pub mac: [u8; 6],
    pub res: [u8; 36],
}

impl BasicUdf for UuidGenerateV1 {
    type Returns<'a> = &'a [u8];

    fn init(cfg: &mut UdfCfg<Init>, args: &mut ArgList<Init>) -> (r: Result<Self, String>)
        ensures
            r is Ok <==> old(args)@.len() == 0,
            r matches Err(m) ==> m@ == arity_message(
                "uuid_generate_v1"@,
                0,
                old(args)@.len() as nat,
            ),
            r is Ok ==> final(cfg)@ == (CfgModel { max_len: 36, ..old(cfg)@ }),
            final(args)@ == old(args)@,
    {
        match init_generator(cfg, args, "uuid_generate_v1") {
            Err(m) => Err(m),
            Ok(()) => {
                let mac = match hardware_mac() {
                    Some(m) => m,
                    None => [0u8; 6],
                };
                Ok(UuidGenerateV1 { mac, res: [0u8; 36] })
            },
        }
    }

    fn process<'a>(
        &'a mut self,
        cfg: &UdfCfg<Process>,
        args: &ArgList<Process>,
        error: Option<u8>,
    ) -> (r: Result<&'a [u8], ProcessError>)
        ensures
            r matches Ok(t) && t@ == final(self).res@ && generated_text(t@, 1, old(self).mac@),
            final(self).mac == old(self).mac,
    {
        let bytes = now_v1(&self.mac);
        self.res = hyphenated_lower(bytes);
        assert(bytes@.subrange(10, 10 + self.mac@.len() as int) == self.mac@);
        Ok(self.res.as_slice())
    }
}

/// A version 1 UUID whose node is a random multicast address (`01:00:5e`
/// followed by three random bytes).
#[derive(Debug)]
pub struct UuidGenerateV1mc(pub [u8; 36]);

impl BasicUdf for UuidGenerateV1mc {
    type Returns<'a> = &'a [u8];

    fn init(cfg: &mut UdfCfg<Init>, args: &mut ArgList<Init>) -> (r: Result<Self, String>)
        ensures
            r is Ok <==> old(args)@.len() == 0,
            r matches Err(m) ==> m@ == arity_message(
                "uuid_generate_v1mc"@,
                0,
                old(args)@.len() as nat,
            ),
            r is Ok ==> final(cfg)@ == (CfgModel { max_len: 36, ..old(cfg)@ }),
            final(args)@ == old(args)@,
    {
        match init_generator(cfg, args, "uuid_generate_v1mc") {
            Err(m) => Err(m),
            Ok(()) => Ok(UuidGenerateV1mc([0u8; 36])),
        }
    }

    fn process<'a>(
        &'a mut self,
        cfg: &UdfCfg<Process>,
        args: &ArgList<Process>,
        error: Option<u8>,
    ) -> (r: Result<&'a [u8], ProcessError>)
        ensures
            r matches Ok(t) && t@ == final(self).0@ && generated_text(
                t@,
                1,
                seq![0x01u8, 0x00, 0x5e],
            ),
    {
        let mut fake_mac: [u8; 6] = rand::random();
        // the prefix of a multicast address
        fake_mac[0] = 0x01;
        fake_mac[1] = 0x00;
        fake_mac[2] = 0x5e;
        let bytes = now_v1(&fake_mac);
        self.0 = hyphenated_lower(bytes);
        assert(bytes@.subrange(10, 13) =~= seq![0x01u8, 0x00, 0x5e]) by {
            assert(bytes@.subrange(10, 16) == fake_mac@);
            assert(bytes@[10] == bytes@.subrange(10, 16)[0]);
            assert(bytes@[11] == bytes@.subrange(10, 16)[1]);
            assert(bytes@[12] == bytes@.subrange(10, 16)[2]);
        }
        Ok(self.0.as_slice())
    }
}

/// A version 4 UUID: random bits.
#[derive(Debug)]
pub struct UuidGenerateV4(pub [u8; 36]);

impl BasicUdf for UuidGenerateV4 {
    type Returns<'a> = &'a [u8];

    fn init(cfg: &mut UdfCfg<Init>, args: &mut ArgList<Init>) -> (r: Result<Self, String>)
        ensures
            r is Ok <==> old(args)@.len() == 0,
            r matches Err(m) ==> m@ == arity_message(
                "uuid_generate_v4"@,
                0,
                old(args)@.len() as nat,
            ),
            r is Ok ==> final(cfg)@ == (CfgModel { max_len: 36, ..old(cfg)@ }),
            final(args)@ == old(args)@,
    {
        match init_generator(cfg, args, "uuid_generate_v4") {
            Err(m) => Err(m),
            Ok(()) => Ok(UuidGenerateV4([0u8; 36])),
        }
    }

    fn process<'a>(
        &'a mut self,
        cfg: &UdfCfg<Process>,
        args: &ArgList<Process>,
        error: Option<u8>,
    ) -> (r: Result<&'a [u8], ProcessError>)
        ensures
            r matches Ok(t) && t@ == final(self).0@ && generated_text(t@, 4, Seq::empty()),
    {
        let bytes = new_v4();
        self.0 = hyphenated_lower(bytes);
        assert(bytes@.subrange(10, 10) =~= Seq::<u8>::empty());
        Ok(self.0.as_slice())
    }
}

/// The message of `uuid_generate_v6` called with `count` arguments.
pub open spec fn v6_arity_message(count: nat) -> Seq<char> {
    "uuid_generate_v6 takes 0 or 1 arguments but got "@ + decimal_text(count)
        + " (usage: `uuid_generate_v6()` or `uuid_generate_v6(node_id)`)"@
}

/// A version 6 UUID (the fields of version 1 reordered so that the text sorts
/// by time), with the six bytes of its one argument as node, or a random node
/// where there is no argument.
#[derive(Debug)]
pub struct UuidGenerateV6(pub [u8; 36]);

impl BasicUdf for UuidGenerateV6 {
    type Returns<'a> = &'a [u8];

    fn init(cfg: &mut UdfCfg<Init>, args: &mut ArgList<Init>) -> (r: Result<Self, String>)
        ensures
            r is Ok <==> old(args)@.len() <= 1,
            r matches Err(m) ==> m@ == v6_arity_message(old(args)@.len() as nat),
            r is Ok ==> final(cfg)@ == (CfgModel { max_len: 36, ..old(cfg)@ }),
            r is Err ==> final(cfg)@ == old(cfg)@,
            r is Ok && old(args)@.len() == 1 ==> final(args)@ == old(args)@.update(
                0,
                SqlArg { arg_type: SqlType::String, ..old(args)@[0] },
            ),
            r is Err || old(args)@.len() == 0 ==> final(args)@ == old(args)@,
    {
        if args.len() > 1 {
            let mut m = String::from_str("uuid_generate_v6 takes 0 or 1 arguments but got ");
            m.append(decimal(args.len() as u64).as_str());
            m.append(" (usage: `uuid_generate_v6()` or `uuid_generate_v6(node_id)`)");
            return Err(m);
        }
        if args.len() == 1 {
            args.set_type_coercion(0, SqlType::String);
        }
        cfg.set_max_len(HYPHENATED_UUID_LEN_U64);
        Ok(UuidGenerateV6([0u8; 36]))
    }

    fn process<'a>(
        &'a mut self,
        cfg: &UdfCfg<Process>,
        args: &ArgList<Process>,
        error: Option<u8>,
    ) -> (r: Result<&'a [u8], ProcessError>)
        ensures
            args@.len() == 0 ==> r is Ok,
            args@.len() > 0 ==> (r is Ok <==> (args@[0].value.bytes() matches Some(b) && b.len()
                == 6)),
            r matches Ok(t) ==> t@ == final(self).0@,
            r matches Ok(t) ==> generated_text(
                t@,
                6,
                if args@.len() > 0 {
                    args@[0].value.bytes().unwrap()
                } else {
                    Seq::empty()
                },
            ),
    {
        let node: [u8; 6] = match args.get(0) {
            Some(arg) => {
                let b = match arg.value().as_bytes() {
                    Some(b) => b,
                    None => return Err(ProcessError),
                };
                if b.len() != 6 {
                    return Err(ProcessError);
                }
                let node: [u8; 6] = [b[0], b[1], b[2], b[3], b[4], b[5]];
                assert(node@ =~= b@);
                node
            },
            None => rand::random(),
        };
        let bytes = now_v6(&node);
        self.0 = hyphenated_lower(bytes);
        assert(bytes@.subrange(10, 10) =~= Seq::<u8>::empty());
        assert(bytes@.subrange(10, 16) == node@);
        Ok(self.0.as_slice())
    }
}

/// A version 7 UUID: the Unix time in milliseconds, then random bits.
#[derive(Debug)]
pub struct UuidGenerateV7(pub [u8; 36]);

impl BasicUdf for UuidGenerateV7 {
    type Returns<'a> = &'a [u8];

    fn init(cfg: &mut UdfCfg<Init>, args: &mut ArgList<Init>) -> (r: Result<Self, String>)
        ensures
            r is Ok <==> old(args)@.len() == 0,
            r matches Err(m) ==> m@ == arity_message(
                "uuid_generate_v7"@,
                0,
                old(args)@.len() as nat,
            ),
            r is Ok ==> final(cfg)@ == (CfgModel { max_len: 36, ..old(cfg)@ }),
            final(args)@ == old(args)@,
    {
        match init_generator(cfg, args, "uuid_generate_v7") {
            Err(m) => Err(m),
            Ok(()) => Ok(UuidGenerateV7([0u8; 36])),
        }
    }

    fn process<'a>(
        &'a mut self,
        cfg: &UdfCfg<Process>,
        args: &ArgList<Process>,
        error: Option<u8>,
    ) -> (r: Result<&'a [u8], ProcessError>)
        ensures
            r matches Ok(t) && t@ == final(self).0@ && generated_text(t@, 7, Seq::empty()),
    {
        let bytes = now_v7();
        self.0 = hyphenated_lower(bytes);
        assert(bytes@.subrange(10, 10) =~= Seq::<u8>::empty());
        Ok(self.0.as_slice())
    }
}

} // verus!
