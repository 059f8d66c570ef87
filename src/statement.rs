//! One statement's life with a function: initialization, then rows, then
//! teardown. The engine's entry points drive it.

use vstd::prelude::*;
use crate::args::{row_fits, with_values, ArgList, Init, Process, SqlArg};
use crate::cfg::{CfgModel, UdfCfg};
use crate::sql::{ProcessError, SqlResult};
use crate::udf::{AggregateUdf, BasicUdf};

verus! {

/// The instance of a function for one statement, with the configuration and
/// the arguments as initialization left them. It exists only once
/// initialization has succeeded; consuming it is the teardown.
pub struct Statement<U> {
    udf: U,
    cfg: UdfCfg<Process>,
    args: ArgList<Process>,
}

impl<U: BasicUdf> Statement<U> {
    /// The arguments: their labels and types, and the values of the last row.
    pub closed spec fn arg_view(&self) -> Seq<SqlArg> {
        self.args@
    }

    /// The configuration that initialization set.
    pub closed spec fn cfg_view(&self) -> CfgModel {
        self.cfg@
    }

    /// Runs the function's initialization; on success the handles pass to the
    /// processing phase, with the same arguments in the same order.
    pub fn initialize(cfg: UdfCfg<Init>, args: ArgList<Init>) -> (r: Result<Statement<U>, String>)
        ensures
            r matches Ok(s) ==> s.arg_view().len() == args@.len(),
            r matches Ok(s) ==> forall|i: int|
                0 <= i < args@.len() ==> (#[trigger] s.arg_view()[i]).value == args@[i].value
                    && s.arg_view()[i].attribute == args@[i].attribute,
    {
        let mut cfg = cfg;
        let mut args = args;
        match U::init(&mut cfg, &mut args) {
            Ok(udf) => Ok(Statement { udf, cfg: cfg.into_process(), args: args.into_process() }),
            Err(m) => Err(m),
        }
    }

    /// The configuration, for the engine to read.
    pub fn cfg(&self) -> (r: &UdfCfg<Process>)
        ensures
            r@ == self.cfg_view(),
    {
        &self.cfg
    }

    /// The arguments, for the engine to read the types that initialization
    /// asked for.
    pub fn args(&self) -> (r: &ArgList<Process>)
        ensures
            r@ == self.arg_view(),
    {
        &self.args
    }

    /// Processes one row. A row that does not have one value per argument,
    /// each of the type fixed at initialization, fails without reaching the
    /// function.
    pub fn process_row<'a>(&'a mut self, values: Vec<SqlResult>) -> (r: Result<
        U::Returns<'a>,
        ProcessError,
    >)
        ensures
            !row_fits(old(self).arg_view(), values@) ==> r is Err,
            row_fits(old(self).arg_view(), values@) ==> final(self).arg_view() == with_values(
                old(self).arg_view(),
                values@,
            ),
            !row_fits(old(self).arg_view(), values@) ==> final(self).arg_view() == old(
                self,
            ).arg_view(),
            final(self).cfg_view() == old(self).cfg_view(),
    {
        if !self.args.set_row(values) {
            return Err(ProcessError);
        }
        self.udf.process(&self.cfg, &self.args, None)
    }

    /// Ends the statement, after any number of rows, and releases the
    /// instance.
    pub fn teardown(self) {
        let Statement { udf, cfg, args } = self;
    }
}

impl<U: AggregateUdf> Statement<U> {
    /// Starts a new group.
    pub fn clear_group(&mut self) -> (r: Result<(), u8>)
        ensures
            final(self).arg_view() == old(self).arg_view(),
            final(self).cfg_view() == old(self).cfg_view(),
    {
        self.udf.clear(&self.cfg, None)
    }

    /// Folds one row into the group. A row that does not fit the arguments
    /// fails with 1 without reaching the function.
    pub fn add_row(&mut self, values: Vec<SqlResult>) -> (r: Result<(), u8>)
        ensures
            !row_fits(old(self).arg_view(), values@) ==> r == Err::<(), u8>(1),
            row_fits(old(self).arg_view(), values@) ==> final(self).arg_view() == with_values(
                old(self).arg_view(),
                values@,
            ),
            final(self).cfg_view() == old(self).cfg_view(),
    {
        if !self.args.set_row(values) {
            return Err(1);
        }
        self.udf.add(&self.cfg, &self.args, None)
    }
}

} // verus!
