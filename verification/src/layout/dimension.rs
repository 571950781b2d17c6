use crate::units::{add_units, sub_units, unit_add, unit_sub};
use vstd::prelude::*;

verus! {

/// A width/height pair, in whole integer units.
#[derive(Clone, Copy, Debug, PartialEq, Eq, Structural)]
pub struct Dimensions {
    pub width: i64,
    pub height: i64,
}

impl Dimensions {
    pub fn new(width: i64, height: i64) -> (r: Dimensions)
        ensures
            r == (Dimensions { width, height }),
    {
        Dimensions { width, height }
    }

    pub fn to_tuple(&self) -> (r: (i64, i64))
        ensures
            r == (self.width, self.height),
    {
        (self.width, self.height)
    }

    /// Grows both axes, saturating at the unit limit.
    pub fn add(&mut self, width: i64, height: i64)
        ensures
            final(self).width == unit_add(old(self).width as int, width as int),
            final(self).height == unit_add(old(self).height as int, height as int),
    {
        self.width = add_units(self.width, width);
        self.height = add_units(self.height, height);
    }

    /// Shrinks both axes, saturating at the unit limit; the result may be
    /// negative, which later sizing steps tolerate.
    pub fn subtract(&mut self, width: i64, height: i64)
        ensures
            final(self).width == unit_sub(old(self).width as int, width as int),
            final(self).height == unit_sub(old(self).height as int, height as int),
    {
        self.width = sub_units(self.width, width);
        self.height = sub_units(self.height, height);
    }
}

} // verus!
