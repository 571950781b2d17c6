use crate::units::{mul_frac, unit_mul_frac};
use vstd::prelude::*;

verus! {

/// An optional clamp applied on top of a base sizing computation. A percent
/// constraint is stored in thousandths of the value it clamps against.
#[derive(Clone, Copy, Debug, PartialEq, Eq, Structural)]
pub enum ConstraintUnit {
    Percent(i64),
    Fixed(i64),
    Unconstrained,
}

impl ConstraintUnit {
    /// The clamp value resolved against `value`: a fraction of it, a literal,
    /// or `value` itself when unconstrained.
    pub open spec fn spec_calculate(self, value: int) -> int {
        match self {
            ConstraintUnit::Percent(p) => unit_mul_frac(value, p as int),
            ConstraintUnit::Fixed(f) => f as int,
            ConstraintUnit::Unconstrained => value,
        }
    }

    pub fn calculate(&self, value: i64) -> (r: i64)
        ensures
            r == self.spec_calculate(value as int),
    {
        match self {
            ConstraintUnit::Percent(p) => mul_frac(value, *p),
            ConstraintUnit::Fixed(f) => *f,
            ConstraintUnit::Unconstrained => value,
        }
    }

    pub fn index(&self) -> (r: u32)
        ensures
            r == match self {
                ConstraintUnit::Percent(_) => 1int,
                ConstraintUnit::Fixed(_) => 2int,
                ConstraintUnit::Unconstrained => 3int,
            },
    {
        match self {
            ConstraintUnit::Percent(_) => 1,
            ConstraintUnit::Fixed(_) => 2,
            ConstraintUnit::Unconstrained => 3,
        }
    }
}

} // verus!
