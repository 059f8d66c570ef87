//! The lifecycle that a function implementation follows.

use vstd::prelude::*;
use crate::args::{ArgList, Init, Process};
use crate::cfg::UdfCfg;
use crate::sql::ProcessError;

verus! {

/// A scalar function: initialized once per statement, then called once per
/// row. Dropping the instance is its teardown.
pub trait BasicUdf: Sized {
    /// What a row produces; it may borrow from the instance, whose buffer is
    /// then reused by the next row.
    type Returns<'a> where Self: 'a;

    /// Checks the arguments and sets up the configuration; an error is a
    /// message for the client, and no row follows it.
    /// It may ask for coercions, and changes nothing else of the arguments.
    fn init(cfg: &mut UdfCfg<Init>, args: &mut ArgList<Init>) -> (r: Result<Self, String>)
        ensures
            final(args)@.len() == old(args)@.len(),
            forall|i: int|
                0 <= i < old(args)@.len() ==> (#[trigger] final(args)@[i]).value == old(
                    args,
                )@[i].value && final(args)@[i].attribute == old(args)@[i].attribute
                    && final(args)@[i].maybe_null == old(args)@[i].maybe_null,
    ;

    /// Computes the result for one row; an error turns that row's result into
    /// `NULL` and the statement goes on.
    fn process<'a>(
        &'a mut self,
        cfg: &UdfCfg<Process>,
        args: &ArgList<Process>,
        error: Option<u8>,
    ) -> Result<Self::Returns<'a>, ProcessError>;
}

/// An aggregate function: `clear` starts each group, `add` folds one row into
/// it, and `process` produces the group's result.
pub trait AggregateUdf: BasicUdf {
    fn clear(&mut self, cfg: &UdfCfg<Process>, error: Option<u8>) -> Result<(), u8>;

    fn add(&mut self, cfg: &UdfCfg<Process>, args: &ArgList<Process>, error: Option<u8>) -> Result<
        (),
        u8,
    >;
}

} // verus!
