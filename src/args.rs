//! The argument view, tagged with the phase of the call that it belongs to.

use vstd::prelude::*;
use crate::sql::{SqlResult, SqlType};
use core::marker::PhantomData;

verus! {

/// The phase of the one initialization call of a statement.
#[derive(Clone, Copy, Debug)]
pub struct Init;

/// The phase of a row-processing call.
#[derive(Clone, Copy, Debug)]
pub struct Process;

/// One argument: its current value, the label that the query gave it, and the
/// type in which the engine presents it.
#[derive(Clone, Debug)]
pub struct SqlArg {
    pub value: SqlResult,
    pub attribute: String,
    pub arg_type: SqlType,
    pub maybe_null: bool,
}

impl SqlArg {
    /// An argument presented in the type of its value.
    pub fn new(value: SqlResult, attribute: &str, maybe_null: bool) -> (r: SqlArg)
        ensures
            r.value == value,
            r.attribute@ == attribute@,
            r.arg_type == value.kind(),
            r.maybe_null == maybe_null,
    {
        let arg_type = value.sql_type();
        SqlArg { value, attribute: attribute.to_owned(), arg_type, maybe_null }
    }

    /// The value; during initialization it is known only for constants.
    pub fn value(&self) -> (r: &SqlResult)
        ensures
            *r == self.value,
    {
        &self.value
    }

    /// The label of the argument in the query (a column name or an alias).
    pub fn attribute(&self) -> (r: &str)
        ensures
            r@ == self.attribute@,
    {
        self.attribute.as_str()
    }
}

/// The arguments of one call, in order. `S` is the phase (`Init` or
/// `Process`); only an initialization list can request coercions.
pub struct ArgList<S> {
    args: Vec<SqlArg>,
    phase: PhantomData<S>,
}

impl<S> View for ArgList<S> {
    type V = Seq<SqlArg>;

    closed spec fn view(&self) -> Seq<SqlArg> {
        self.args@
    }
}

/// Whether `values` can stand as the next row of `args`: one value per
/// argument, each of the type in which that argument is presented.
pub open spec fn row_fits(args: Seq<SqlArg>, values: Seq<SqlResult>) -> bool {
    &&& values.len() == args.len()
    &&& forall|i: int| 0 <= i < args.len() ==> (#[trigger] values[i]).kind() == args[i].arg_type
}

/// `args` with the values of `values`, labels and types kept.
pub open spec fn with_values(args: Seq<SqlArg>, values: Seq<SqlResult>) -> Seq<SqlArg> {
    Seq::new(args.len(), |i: int| SqlArg { value: values[i], ..args[i] })
}

impl<S> ArgList<S> {
    pub fn new(args: Vec<SqlArg>) -> (r: ArgList<S>)
        ensures
            r@ == args@,
    {
        ArgList { args, phase: PhantomData }
    }

    pub fn len(&self) -> (r: usize)
        ensures
            r == self@.len(),
    {
        self.args.len()
    }

    pub fn is_empty(&self) -> (r: bool)
        ensures
            r == (self@.len() == 0),
    {
        self.args.len() == 0
    }

    /// The argument at `index`, or `None` past the end.
    pub fn get(&self, index: usize) -> (r: Option<&SqlArg>)
        ensures
            index < self@.len() ==> (r matches Some(a) && *a == self@[index as int]),
            index >= self@.len() ==> r is None,
    {
        if index < self.args.len() {
            Some(&self.args[index])
        } else {
            None
        }
    }
}

impl ArgList<Init> {
    /// Asks the engine to present argument `index` as `ty` in every row.
    /// Asking twice for the same type changes nothing more.
    pub fn set_type_coercion(&mut self, index: usize, ty: SqlType)
        requires
            index < old(self)@.len(),
        ensures
            final(self)@ == old(self)@.update(
                index as int,
                SqlArg { arg_type: ty, ..old(self)@[index as int] },
            ),
    {
        let mut a = self.args.remove(index);
        a.arg_type = ty;
        self.args.insert(index, a);
        assert(self.args@ =~= old(self)@.update(
            index as int,
            SqlArg { arg_type: ty, ..old(self)@[index as int] },
        ));
    }

    /// The same arguments, handed on to row processing.
    pub fn into_process(self) -> (r: ArgList<Process>)
        ensures
            r@ == self@,
    {
        ArgList { args: self.args, phase: PhantomData }
    }
}

impl ArgList<Process> {
    /// Puts the values of the next row in place. The row is refused, and the
    /// list left as it was, unless it has one value per argument in the type
    /// that was fixed at initialization.
    pub fn set_row(&mut self, values: Vec<SqlResult>) -> (r: bool)
        ensures
            r == row_fits(old(self)@, values@),
            r ==> final(self)@ == with_values(old(self)@, values@),
            !r ==> final(self)@ == old(self)@,
    {
        if values.len() != self.args.len() {
            return false;
        }
        let mut i: usize = 0;
        while i < values.len()
            invariant
                values.len() == self.args.len(),
                i <= values.len(),
                forall|j: int| 0 <= j < i ==> (#[trigger] values@[j]).kind() == self.args@[j].arg_type,
            decreases values.len() - i,
        {
            if values[i].sql_type() != self.args[i].arg_type {
                return false;
            }
            i = i + 1;
        }
        let ghost original = self.args@;
        let ghost row = values@;
        let mut values = values;
        let mut k: usize = values.len();
        while k > 0
            invariant
                row.len() == original.len(),
                k <= row.len(),
                values@ == row.subrange(0, k as int),
                self.args@.len() == original.len(),
                forall|j: int| 0 <= j < k ==> #[trigger] self.args@[j] == original[j],
                forall|j: int|
                    k <= j < original.len() ==> #[trigger] self.args@[j] == (SqlArg {
                        value: row[j],
                        ..original[j]
                    }),
            decreases k,
        {
            let v = values.pop().unwrap();
            k = k - 1;
            let mut a = self.args.remove(k);
            a.value = v;
            self.args.insert(k, a);
        }
        assert(self@ =~= with_values(original, row));
        true
    }
}

} // verus!
