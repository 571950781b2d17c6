use crate::units::{add_units, sub_units, unit_add, unit_sub};
use vstd::prelude::*;

verus! {

/// A point in the coordinate space of a node's parent content box.
#[derive(Clone, Copy, Debug, PartialEq, Eq, Structural)]
pub struct Position {
    pub x: i64,
    pub y: i64,
}

impl Position {
    pub fn new(x: i64, y: i64) -> (r: Position)
        ensures
            r == (Position { x, y }),
    {
        Position { x, y }
    }

    /// The offset of `self` as seen from `position`.
    pub fn relative_to(&self, position: Position) -> (r: Position)
        ensures
            r.x == unit_sub(self.x as int, position.x as int),
            r.y == unit_sub(self.y as int, position.y as int),
    {
        Position { x: sub_units(self.x, position.x), y: sub_units(self.y, position.y) }
    }

    /// Component-wise sum of two positions.
    pub fn sum(&self, position: Position) -> (r: Position)
        ensures
            r.x == unit_add(self.x as int, position.x as int),
            r.y == unit_add(self.y as int, position.y as int),
    {
        Position { x: add_units(self.x, position.x), y: add_units(self.y, position.y) }
    }

    /// Moves the point to the given coordinates.
    pub fn translate(&mut self, x: i64, y: i64)
        ensures
            *final(self) == (Position { x, y }),
    {
        self.x = x;
        self.y = y;
    }

    pub fn to_tuple(&self) -> (r: (i64, i64))
        ensures
            r == (self.x, self.y),
    {
        (self.x, self.y)
    }
}

} // verus!
