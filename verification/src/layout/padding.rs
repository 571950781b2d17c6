use super::dimension::Dimensions;
use crate::units::{unit_add, unit_sub};
use vstd::prelude::*;

verus! {

/// Space reserved inside a box on each of its four sides.
#[derive(Clone, Copy, Debug, PartialEq, Eq, Structural)]
pub struct Padding {
    pub top: i64,
    pub left: i64,
    pub right: i64,
    pub bottom: i64,
}

impl Padding {
    pub fn new(top: i64, bottom: i64, left: i64, right: i64) -> (r: Padding)
        ensures
            r == (Padding { top, bottom, left, right }),
    {
        Padding { top, bottom, left, right }
    }

    pub fn empty() -> (r: Padding)
        ensures
            r == (Padding { top: 0, bottom: 0, left: 0, right: 0 }),
    {
        Padding::new(0, 0, 0, 0)
    }

    pub fn to_tuple(&self) -> (r: (i64, i64, i64, i64))
        ensures
            r == (self.top, self.bottom, self.left, self.right),
    {
        (self.top, self.bottom, self.left, self.right)
    }
}

/// The combined horizontal padding of `p`.
pub open spec fn pad_width(p: Padding) -> int {
    unit_add(p.left as int, p.right as int)
}

/// The combined vertical padding of `p`.
pub open spec fn pad_height(p: Padding) -> int {
    unit_add(p.top as int, p.bottom as int)
}

pub trait PaddedDimensions {
    fn occupy_with_padding(&mut self, padding: &Padding);
}

impl PaddedDimensions for Dimensions {
    /// Shrinks the dimensions by the padding on each side.
    fn occupy_with_padding(&mut self, padding: &Padding)
        ensures
            final(self).width == unit_sub(old(self).width as int, pad_width(*padding)),
            final(self).height == unit_sub(old(self).height as int, pad_height(*padding)),
    {
        let x = crate::units::add_units(padding.left, padding.right);
        let y = crate::units::add_units(padding.top, padding.bottom);

        self.subtract(x, y);
    }
}

} // verus!
