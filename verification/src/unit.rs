//! The unit type of the conversions around tasks and their inputs.

use vstd::prelude::*;
use crate::value::{Value, ValueView};

verus! {

/// A type with one value, which holds no information.
#[derive(Clone, Copy, Debug, PartialEq, Eq)]
pub struct Unit;

impl Unit {
    /// The unit as a value of the data model: null.
    pub fn to_value(&self) -> (value: Value)
        ensures
            value@ == ValueView::Null,
    {
        Value::Null
    }

    /// Every value of the data model gives the unit.
    pub fn from_value(value: &Value) -> (unit: Unit)
        ensures
            unit == Unit,
    {
        Unit
    }
}

/// The arguments that an input stands for: the items of a list, or the one
/// value that is no list.
pub open spec fn arguments(input: ValueView) -> Seq<ValueView> {
    match input {
        ValueView::List(items) => items,
        _ => seq![input],
    }
}

/// What the values `values` are, in order.
pub open spec fn value_views(values: Seq<Value>) -> Seq<ValueView> {
    Seq::new(values.len(), |i: int| values[i]@)
}

/// Takes an input apart into its arguments.
pub fn parse(input: &Value) -> (args: Vec<Value>)
    ensures
        value_views(args@) == arguments(input@),
{
    match input {
        Value::List(items) => {
            let mut args: Vec<Value> = Vec::new();
            let mut i: usize = 0;
            while i < items.len()
                invariant
                    i <= items.len(),
                    args@.len() == i,
                    forall|j: int| 0 <= j < i ==> (#[trigger] args@[j])@ == items@[j]@,
                decreases items.len() - i,
            {
                args.push(items[i].clone());
                i += 1;
            }
            assert(value_views(args@) =~= input@->List_0);
            args
        },
        _ => {
            let mut args: Vec<Value> = Vec::new();
            args.push(input.clone());
            assert(value_views(args@) =~= seq![input@]);
            args
        },
    }
}

} // verus!
