//! The per-statement configuration handle. Its setters exist only on the
//! handle of the initialization phase.

use vstd::prelude::*;
use crate::args::{Init, Process};
use core::marker::PhantomData;

verus! {

/// What the engine reads of the configuration once initialization returns.
pub struct CfgModel {
    pub max_len: u64,
    pub is_const: bool,
    pub decimals: u32,
    pub maybe_null: bool,
}

/// The configuration of one statement, in phase `S`.
pub struct UdfCfg<S> {
    max_len: u64,
    is_const: bool,
    decimals: u32,
    maybe_null: bool,
    phase: PhantomData<S>,
}

impl<S> View for UdfCfg<S> {
    type V = CfgModel;

    closed spec fn view(&self) -> CfgModel {
        CfgModel {
            max_len: self.max_len,
            is_const: self.is_const,
            decimals: self.decimals,
            maybe_null: self.maybe_null,
        }
    }
}

impl<S> UdfCfg<S> {
    /// A configuration with no output length, not constant, no decimals, and
    /// a result that is never null.
    pub fn new() -> (r: UdfCfg<S>)
        ensures
            r@ == (CfgModel { max_len: 0, is_const: false, decimals: 0, maybe_null: false }),
    {
        UdfCfg { max_len: 0, is_const: false, decimals: 0, maybe_null: false, phase: PhantomData }
    }

    pub fn max_len(&self) -> (r: u64)
        ensures
            r == self@.max_len,
    {
        self.max_len
    }

    pub fn is_const(&self) -> (r: bool)
        ensures
            r == self@.is_const,
    {
        self.is_const
    }

    pub fn decimals(&self) -> (r: u32)
        ensures
            r == self@.decimals,
    {
        self.decimals
    }

    pub fn maybe_null(&self) -> (r: bool)
        ensures
            r == self@.maybe_null,
    {
        self.maybe_null
    }
}

impl UdfCfg<Init> {
    /// The largest output, in bytes, that the function will return.
    pub fn set_max_len(&mut self, v: u64)
        ensures
            final(self)@ == (CfgModel { max_len: v, ..old(self)@ }),
    {
        self.max_len = v;
    }

    /// Whether the result depends on constant arguments alone.
    pub fn set_is_const(&mut self, v: bool)
        ensures
            final(self)@ == (CfgModel { is_const: v, ..old(self)@ }),
    {
        self.is_const = v;
    }

    /// The number of decimals of a decimal result.
    pub fn set_decimals(&mut self, v: u32)
        ensures
            final(self)@ == (CfgModel { decimals: v, ..old(self)@ }),
    {
        self.decimals = v;
    }

    /// Whether the result may be null.
    pub fn set_maybe_null(&mut self, v: bool)
        ensures
            final(self)@ == (CfgModel { maybe_null: v, ..old(self)@ }),
    {
        self.maybe_null = v;
    }

    /// The configuration as it stands, handed on to row processing.
    pub fn into_process(self) -> (r: UdfCfg<Process>)
        ensures
            r@ == self@,
    {
        UdfCfg {
            max_len: self.max_len,
            is_const: self.is_const,
            decimals: self.decimals,
            maybe_null: self.maybe_null,
            phase: PhantomData,
        }
    }
}

} // verus!
