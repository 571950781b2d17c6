use crate::units::{half_unit, sub_units, unit_half, unit_sub};
use vstd::prelude::*;

verus! {

/// Where a child sits inside the free space of one axis.
#[derive(Clone, Copy, Debug, PartialEq, Eq, Structural)]
pub enum AlignUnit {
    Start,
    Middle,
    End,
}

impl AlignUnit {
    /// The offset of a box of extent `content` aligned inside a span of
    /// extent `bounds`: the start pins it at zero, the middle centers it
    /// (halves rounded towards zero), the end pins it against the far edge.
    pub open spec fn spec_calculate(self, content: int, bounds: int) -> int {
        match self {
            AlignUnit::Start => 0,
            AlignUnit::Middle => unit_sub(unit_half(bounds), unit_half(content)),
            AlignUnit::End => unit_sub(bounds, content),
        }
    }

    pub fn index(&self) -> (r: i32)
        ensures
            r == match self {
                AlignUnit::Start => 0int,
                AlignUnit::End => 1int,
                AlignUnit::Middle => 2int,
            },
    {
        match self {
            AlignUnit::Start => 0,
            AlignUnit::End => 1,
            AlignUnit::Middle => 2,
        }
    }

    pub fn calculate(&self, content: i64, bounds: i64) -> (r: i64)
        ensures
            r == self.spec_calculate(content as int, bounds as int),
    {
        match self {
            AlignUnit::Start => 0,
            AlignUnit::Middle => sub_units(half_unit(bounds), half_unit(content)),
            AlignUnit::End => sub_units(bounds, content),
        }
    }
}

/// A child's alignment, one `AlignUnit` per axis.
#[derive(Clone, Copy, Debug, PartialEq, Eq, Structural)]
pub struct Alignment {
    pub horizontal: AlignUnit,
    pub vertical: AlignUnit,
}

impl Alignment {
    pub fn new(horizontal: AlignUnit, vertical: AlignUnit) -> (r: Alignment)
        ensures
            r == (Alignment { horizontal, vertical }),
    {
        Alignment { horizontal, vertical }
    }

    pub fn as_tuple(&self) -> (r: (AlignUnit, AlignUnit))
        ensures
            r == (self.horizontal, self.vertical),
    {
        (self.horizontal, self.vertical)
    }
}

} // verus!
