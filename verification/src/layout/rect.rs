use super::dimension::Dimensions;
use super::position::Position;
use crate::units::{half_unit, sub_units, unit_half, unit_sub};
use vstd::prelude::*;

verus! {

pub enum Side {
    Top,
    Left,
    Bottom,
    Right,
}

/// A placed box: a size together with the position of its top-left corner.
#[derive(Clone, Copy, Debug, PartialEq, Eq, Structural)]
pub struct Rect {
    pub dimensions: Dimensions,
    pub position: Position,
}

/// The mathematical content of a `Rect`, used by the layout model.
#[verifier::ext_equal]
pub struct RectModel {
    pub width: int,
    pub height: int,
    pub x: int,
    pub y: int,
}

impl View for Rect {
    type V = RectModel;

    open spec fn view(&self) -> RectModel {
        RectModel {
            width: self.dimensions.width as int,
            height: self.dimensions.height as int,
            x: self.position.x as int,
            y: self.position.y as int,
        }
    }
}

impl Rect {
    pub fn new(width: i64, height: i64, x: i64, y: i64) -> (r: Rect)
        ensures
            r == (Rect {
                dimensions: Dimensions { width, height },
                position: Position { x, y },
            }),
    {
        Rect { dimensions: Dimensions::new(width, height), position: Position::new(x, y) }
    }

    pub fn from_dimensions(dimensions: Dimensions) -> (r: Rect)
        ensures
            r == (Rect { dimensions, position: Position { x: 0, y: 0 } }),
    {
        Rect { dimensions, position: Position::new(0, 0) }
    }

    pub fn from_dimensions_and_position(dimensions: Dimensions, position: Position) -> (r: Rect)
        ensures
            r == (Rect { dimensions, position }),
    {
        Rect { dimensions, position }
    }

    /// A coordinate measured from the given side: distances from the right or
    /// bottom are turned into distances from the left or top.
    pub fn offset(&self, side: Side, value: i64) -> (r: i64)
        ensures
            r == match side {
                Side::Right => unit_sub(self.dimensions.width as int, value as int),
                Side::Bottom => unit_sub(self.dimensions.height as int, value as int),
                _ => value as int,
            },
    {
        match side {
            Side::Right => sub_units(self.dimensions.width, value),
            Side::Bottom => sub_units(self.dimensions.height, value),
            _ => value,
        }
    }

    /// The position at which a box of the given size sits centered in `self`,
    /// with halves rounded towards zero.
    pub fn center(&self, dimensions: Dimensions) -> (r: Position)
        ensures
            r.x == unit_sub(
                unit_half(self.dimensions.width as int),
                unit_half(dimensions.width as int),
            ),
            r.y == unit_sub(
                unit_half(self.dimensions.height as int),
                unit_half(dimensions.height as int),
            ),
    {
        let (width, height) = self.dimensions.to_tuple();
        let (target_width, target_height) = dimensions.to_tuple();

        Position::new(
            sub_units(half_unit(width), half_unit(target_width)),
            sub_units(half_unit(height), half_unit(target_height)),
        )
    }

    pub fn translate(&mut self, x: i64, y: i64)
        ensures
            *final(self) == (Rect { dimensions: old(self).dimensions, position: Position { x, y } }),
    {
        self.position.translate(x, y)
    }

    /// Returns a tuple of the rect's values: (width, height, x, y).
    pub fn as_tuple(&self) -> (r: (i64, i64, i64, i64))
        ensures
            r == (self.dimensions.width, self.dimensions.height, self.position.x, self.position.y),
    {
        let (width, height) = self.dimensions.to_tuple();
        let (x, y) = self.position.to_tuple();

        (width, height, x, y)
    }
}

} // verus!
