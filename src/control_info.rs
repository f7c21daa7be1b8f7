//! The range and the allowed values of a control.
use vstd::prelude::*;

use crate::control_value::ControlValue;

verus! {

/// What an owner declares about one control: its lowest, highest and default
/// values, and, for a control with an enumerated set of values, that set.
#[derive(Debug)]
pub struct ControlInfo {
    min: ControlValue,
    max: ControlValue,
    def: ControlValue,
    values: Vec<ControlValue>,
}

impl ControlInfo {
    pub closed spec fn spec_min(&self) -> ControlValue {
        self.min
    }

    pub closed spec fn spec_max(&self) -> ControlValue {
        self.max
    }

    pub closed spec fn spec_def(&self) -> ControlValue {
        self.def
    }

    pub closed spec fn spec_values(&self) -> Seq<ControlValue> {
        self.values@
    }

    pub fn new(min: ControlValue, max: ControlValue, def: ControlValue, values: Vec<ControlValue>) -> (r: ControlInfo)
        ensures
            r.spec_min() == min,
            r.spec_max() == max,
            r.spec_def() == def,
            r.spec_values() == values@,
    {
        ControlInfo { min, max, def, values }
    }

    /// The default value.
    pub fn def(&self) -> (r: ControlValue)
        ensures
            r@ == self.spec_def()@,
    {
        self.def.duplicate()
    }

    /// The lowest value.
    pub fn min(&self) -> (r: ControlValue)
        ensures
            r@ == self.spec_min()@,
    {
        self.min.duplicate()
    }

    /// The highest value.
    pub fn max(&self) -> (r: ControlValue)
        ensures
            r@ == self.spec_max()@,
    {
        self.max.duplicate()
    }

    /// The allowed values, in the order they were declared; empty for a
    /// control that is not enumerated.
    pub fn values(&self) -> (r: Vec<ControlValue>)
        ensures
            r@.len() == self.spec_values().len(),
            forall|i: int| 0 <= i < r@.len() ==> #[trigger] r@[i]@ == self.spec_values()[i]@,
    {
        let mut out: Vec<ControlValue> = Vec::new();
        let n = self.values.len();
        for i in 0..n
            invariant
                n == self.values@.len(),
                out@.len() == i,
                forall|j: int| 0 <= j < i ==> #[trigger] out@[j]@ == self.values@[j]@,
        {
            out.push(self.values[i].duplicate());
        }
        out
    }
}

} // verus!
