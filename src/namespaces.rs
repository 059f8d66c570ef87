//! The constant UUIDs: nil, max, and the four namespaces of RFC 9562.

use vstd::prelude::*;
use crate::args::{ArgList, Init, Process};
use crate::cfg::{CfgModel, UdfCfg};
use crate::sql::ProcessError;
use crate::text::arity_message;
use crate::udf::BasicUdf;
use crate::validate_arg_count;

verus! {

/// The initialization that every constant shares: no arguments, and a result
/// that the engine may compute once.
pub fn init_constant(cfg: &mut UdfCfg<Init>, args: &ArgList<Init>, fn_name: &str) -> (r: Result<
    (),
    String,
>)
    ensures
        r is Ok <==> args@.len() == 0,
        r matches Err(m) ==> m@ == arity_message(fn_name@, 0, args@.len() as nat),
        r is Ok ==> final(cfg)@ == (CfgModel { is_const: true, ..old(cfg)@ }),
        r is Err ==> final(cfg)@ == old(cfg)@,
{
    match validate_arg_count(args.len(), 0, fn_name) {
        Err(m) => Err(m),
        Ok(()) => {
            cfg.set_is_const(true);
            Ok(())
        },
    }
}

/// The nil UUID, all zeros.
#[derive(Debug, PartialEq, Eq)]
pub struct UuidNil;

impl BasicUdf for UuidNil {
    type Returns<'a> = &'static str;

    fn init(cfg: &mut UdfCfg<Init>, args: &mut ArgList<Init>) -> (r: Result<Self, String>)
        ensures
            r is Ok <==> old(args)@.len() == 0,
            r matches Err(m) ==> m@ == arity_message("uuid_nil"@, 0, old(args)@.len() as nat),
            r is Ok ==> final(cfg)@ == (CfgModel { is_const: true, ..old(cfg)@ }),
            final(args)@ == old(args)@,
    {
        match init_constant(cfg, args, "uuid_nil") {
            Err(m) => Err(m),
            Ok(()) => Ok(UuidNil),
        }
    }

    fn process<'a>(
        &'a mut self,
        cfg: &UdfCfg<Process>,
        args: &ArgList<Process>,
        error: Option<u8>,
    ) -> (r: Result<&'static str, ProcessError>)
        ensures
            r matches Ok(t) && t@ == "00000000-0000-0000-0000-000000000000"@,
    {
        Ok("00000000-0000-0000-0000-000000000000")
    }
}

/// The max UUID, all ones.
#[derive(Debug, PartialEq, Eq)]
pub struct UuidMax;

impl BasicUdf for UuidMax {
    type Returns<'a> = &'static str;

    fn init(cfg: &mut UdfCfg<Init>, args: &mut ArgList<Init>) -> (r: Result<Self, String>)
        ensures
            r is Ok <==> old(args)@.len() == 0,
            r matches Err(m) ==> m@ == arity_message("uuid_max"@, 0, old(args)@.len() as nat),
            r is Ok ==> final(cfg)@ == (CfgModel { is_const: true, ..old(cfg)@ }),
            final(args)@ == old(args)@,
    {
        match init_constant(cfg, args, "uuid_max") {
            Err(m) => Err(m),
            Ok(()) => Ok(UuidMax),
        }
    }

    fn process<'a>(
        &'a mut self,
        cfg: &UdfCfg<Process>,
        args: &ArgList<Process>,
        error: Option<u8>,
    ) -> (r: Result<&'static str, ProcessError>)
        ensures
            r matches Ok(t) && t@ == "ffffffff-ffff-ffff-ffff-ffffffffffff"@,
    {
        Ok("ffffffff-ffff-ffff-ffff-ffffffffffff")
    }
}

/// The DNS namespace UUID.
#[derive(Debug, PartialEq, Eq)]
pub struct UuidNsDns;

impl BasicUdf for UuidNsDns {
    type Returns<'a> = &'static str;

    fn init(cfg: &mut UdfCfg<Init>, args: &mut ArgList<Init>) -> (r: Result<Self, String>)
        ensures
            r is Ok <==> old(args)@.len() == 0,
            r matches Err(m) ==> m@ == arity_message("uuid_ns_dns"@, 0, old(args)@.len() as nat),
            r is Ok ==> final(cfg)@ == (CfgModel { is_const: true, ..old(cfg)@ }),
            final(args)@ == old(args)@,
    {
        match init_constant(cfg, args, "uuid_ns_dns") {
            Err(m) => Err(m),
            Ok(()) => Ok(UuidNsDns),
        }
    }

    fn process<'a>(
        &'a mut self,
        cfg: &UdfCfg<Process>,
        args: &ArgList<Process>,
        error: Option<u8>,
    ) -> (r: Result<&'static str, ProcessError>)
        ensures
            r matches Ok(t) && t@ == "6ba7b810-9dad-11d1-80b4-00c04fd430c8"@,
    {
        Ok("6ba7b810-9dad-11d1-80b4-00c04fd430c8")
    }
}

/// The URL namespace UUID.
#[derive(Debug, PartialEq, Eq)]
pub struct UuidNsUrl;

impl BasicUdf for UuidNsUrl {
    type Returns<'a> = &'static str;

    fn init(cfg: &mut UdfCfg<Init>, args: &mut ArgList<Init>) -> (r: Result<Self, String>)
        ensures
            r is Ok <==> old(args)@.len() == 0,
            r matches Err(m) ==> m@ == arity_message("uuid_ns_url"@, 0, old(args)@.len() as nat),
            r is Ok ==> final(cfg)@ == (CfgModel { is_const: true, ..old(cfg)@ }),
            final(args)@ == old(args)@,
    {
        match init_constant(cfg, args, "uuid_ns_url") {
            Err(m) => Err(m),
            Ok(()) => Ok(UuidNsUrl),
        }
    }

    fn process<'a>(
        &'a mut self,
        cfg: &UdfCfg<Process>,
        args: &ArgList<Process>,
        error: Option<u8>,
    ) -> (r: Result<&'static str, ProcessError>)
        ensures
            r matches Ok(t) && t@ == "6ba7b811-9dad-11d1-80b4-00c04fd430c8"@,
    {
        Ok("6ba7b811-9dad-11d1-80b4-00c04fd430c8")
    }
}

/// The ISO OID namespace UUID.
#[derive(Debug, PartialEq, Eq)]
pub struct UuidNsOid;

impl BasicUdf for UuidNsOid {
    type Returns<'a> = &'static str;

    fn init(cfg: &mut UdfCfg<Init>, args: &mut ArgList<Init>) -> (r: Result<Self, String>)
        ensures
            r is Ok <==> old(args)@.len() == 0,
            r matches Err(m) ==> m@ == arity_message("uuid_ns_oid"@, 0, old(args)@.len() as nat),
            r is Ok ==> final(cfg)@ == (CfgModel { is_const: true, ..old(cfg)@ }),
            final(args)@ == old(args)@,
    {
        match init_constant(cfg, args, "uuid_ns_oid") {
            Err(m) => Err(m),
            Ok(()) => Ok(UuidNsOid),
        }
    }

    fn process<'a>(
        &'a mut self,
        cfg: &UdfCfg<Process>,
        args: &ArgList<Process>,
        error: Option<u8>,
    ) -> (r: Result<&'static str, ProcessError>)
        ensures
            r matches Ok(t) && t@ == "6ba7b812-9dad-11d1-80b4-00c04fd430c8"@,
    {
        Ok("6ba7b812-9dad-11d1-80b4-00c04fd430c8")
    }
}

/// The X.500 namespace UUID.
#[derive(Debug, PartialEq, Eq)]
pub struct UuidNsX500;

impl BasicUdf for UuidNsX500 {
    type Returns<'a> = &'static str;

    fn init(cfg: &mut UdfCfg<Init>, args: &mut ArgList<Init>) -> (r: Result<Self, String>)
        ensures
            r is Ok <==> old(args)@.len() == 0,
            r matches Err(m) ==> m@ == arity_message("uuid_ns_x500"@, 0, old(args)@.len() as nat),
            r is Ok ==> final(cfg)@ == (CfgModel { is_const: true, ..old(cfg)@ }),
            final(args)@ == old(args)@,
    {
        match init_constant(cfg, args, "uuid_ns_x500") {
            Err(m) => Err(m),
            Ok(()) => Ok(UuidNsX500),
        }
    }

    fn process<'a>(
        &'a mut self,
        cfg: &UdfCfg<Process>,
        args: &ArgList<Process>,
        error: Option<u8>,
    ) -> (r: Result<&'static str, ProcessError>)
        ensures
            r matches Ok(t) && t@ == "6ba7b814-9dad-11d1-80b4-00c04fd430c8"@,
    {
        Ok("6ba7b814-9dad-11d1-80b4-00c04fd430c8")
    }
}

} // verus!
