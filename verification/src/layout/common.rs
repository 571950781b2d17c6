use super::constraints::ConstraintUnit;
use super::dimension::Dimensions;
use crate::units::{max_units, min_units, mul_frac, unit_max, unit_min, unit_mul_frac};
use vstd::prelude::*;

verus! {

/// The axis along which a directional container lays out its children.
#[derive(Clone, Copy, Debug, PartialEq, Eq, Structural)]
pub enum Direction {
    Horizontal,
    Vertical,
}

impl Direction {
    /// True exactly when this direction's primary axis is the horizontal one.
    pub open spec fn is_horizontal(self) -> bool {
        self == Direction::Horizontal
    }

    /// Swaps a and b if self is vertical.
    pub fn swap<T>(&self, a: T, b: T) -> (r: (T, T))
        ensures
            r == if self.is_horizontal() {
                (a, b)
            } else {
                (b, a)
            },
    {
        match self {
            Direction::Horizontal => (a, b),
            Direction::Vertical => (b, a),
        }
    }

    /// The component of an (x, y) pair that lies along this direction.
    pub fn primary<T>(&self, a: T, b: T) -> (r: T)
        ensures
            r == if self.is_horizontal() {
                a
            } else {
                b
            },
    {
        self.swap(a, b).0
    }

    /// The component of an (x, y) pair across this direction.
    pub fn secondary<T>(&self, a: T, b: T) -> (r: T)
        ensures
            r == if self.is_horizontal() {
                b
            } else {
                a
            },
    {
        self.swap(a, b).1
    }

    pub fn flip(&self) -> (r: Direction)
        ensures
            r == if self.is_horizontal() {
                Direction::Vertical
            } else {
                Direction::Horizontal
            },
    {
        match self {
            Direction::Horizontal => Direction::Vertical,
            Direction::Vertical => Direction::Horizontal,
        }
    }
}

/// How one axis of a node is sized. Exactly one variant applies per axis.
///
/// Three bounds take part in resolution: the node's own content extent, the
/// space it was handed to fill (`available`), and the resolved box of the
/// ancestor that percentages measure against (`outer`).
#[derive(Clone, Copy, Debug, PartialEq, Eq, Structural)]
pub enum SizingUnit {
    Percent(i64, ConstraintUnit, ConstraintUnit),
    Fixed(i64),
    Collapse(ConstraintUnit),
    Stretch(ConstraintUnit),
}

impl SizingUnit {
    /// The resolved extent of one axis:
    /// - `Fixed(a)` is `a`, whatever the content or bounds;
    /// - `Stretch(c)` fills `available`, clamped from above by the constraint
    ///   resolved against `available` and floored at zero;
    /// - `Percent(p, min, max)` is `outer * p / 1000`, raised to at least the
    ///   minimum and then lowered to at most the maximum, each resolved
    ///   against that same base;
    /// - `Collapse(c)` adopts the content extent, raised to at least the
    ///   constraint resolved against the content.
    pub open spec fn spec_calculate(self, content: int, available: int, outer: int) -> int {
        match self {
            SizingUnit::Fixed(a) => a as int,
            SizingUnit::Stretch(c) => unit_max(
                unit_min(available, c.spec_calculate(available)),
                0,
            ),
            SizingUnit::Percent(p, min_c, max_c) => {
                let base = unit_mul_frac(outer, p as int);
                unit_min(unit_max(base, min_c.spec_calculate(base)), max_c.spec_calculate(base))
            },
            SizingUnit::Collapse(c) => unit_max(content, c.spec_calculate(content)),
        }
    }

    pub fn calculate(&self, content: i64, available: i64, outer: i64) -> (r: i64)
        ensures
            r == self.spec_calculate(content as int, available as int, outer as int),
    {
        match self {
            SizingUnit::Fixed(a) => *a,
            SizingUnit::Stretch(c) => {
                let max = c.calculate(available);

                max_units(min_units(available, max), 0)
            },
            SizingUnit::Percent(p, min_c, max_c) => {
                let base = mul_frac(outer, *p);
                let min = min_c.calculate(base);
                let max = max_c.calculate(base);

                min_units(max_units(base, min), max)
            },
            SizingUnit::Collapse(c) => {
                let min = c.calculate(content);
                max_units(content, min)
            },
        }
    }

    /// The rank that decides resolution order: fixed, intrinsic and percent
    /// sizings resolve before stretch ones.
    pub open spec fn spec_index(self) -> int {
        match self {
            SizingUnit::Fixed(_) => 0,
            SizingUnit::Collapse(c) => 1 + match c {
                ConstraintUnit::Percent(_) => 1int,
                ConstraintUnit::Fixed(_) => 2int,
                ConstraintUnit::Unconstrained => 3int,
            },
            SizingUnit::Percent(_, _, _) => 5,
            SizingUnit::Stretch(c) => 6 + match c {
                ConstraintUnit::Percent(_) => 1int,
                ConstraintUnit::Fixed(_) => 2int,
                ConstraintUnit::Unconstrained => 3int,
            },
        }
    }

    pub fn index(&self) -> (r: u32)
        ensures
            r == self.spec_index(),
            0 <= r <= 9,
    {
        match self {
            SizingUnit::Fixed(_) => 0,
            SizingUnit::Collapse(c) => 1 + c.index(),
            SizingUnit::Percent(_, _, _) => 5,
            SizingUnit::Stretch(c) => 6 + c.index(),
        }
    }

    /// The literal extent of a fixed axis; an error on any dynamic sizing.
    pub fn fixed(&self) -> (r: Result<i64, &str>)
        ensures
            match r {
                Ok(v) => self matches SizingUnit::Fixed(a) && v == a,
                Err(_) => !(self matches SizingUnit::Fixed(_)),
            },
    {
        match self {
            SizingUnit::Fixed(v) => Ok(*v),
            _ => Err("Attempt to get fixed value on dynamic unit"),
        }
    }
}

/// A node's sizing policy, one `SizingUnit` per axis. The two axes resolve
/// independently: widths only ever consult width bounds, heights only height
/// bounds.
#[derive(Clone, Copy, Debug, PartialEq, Eq, Structural)]
pub struct Sizing {
    pub width: SizingUnit,
    pub height: SizingUnit,
}

impl Sizing {
    pub fn new(width: SizingUnit, height: SizingUnit) -> (r: Sizing)
        ensures
            r == (Sizing { width, height }),
    {
        Sizing { width, height }
    }

    pub fn calculate(&self, content: Dimensions, available: Dimensions, outer: Dimensions) -> (r:
        Dimensions)
        ensures
            r.width == self.width.spec_calculate(
                content.width as int,
                available.width as int,
                outer.width as int,
            ),
            r.height == self.height.spec_calculate(
                content.height as int,
                available.height as int,
                outer.height as int,
            ),
    {
        Dimensions {
            width: self.width.calculate(content.width, available.width, outer.width),
            height: self.height.calculate(content.height, available.height, outer.height),
        }
    }

    /// The degenerate resolution for a childless node: content is the zero
    /// vector, so a bare collapse yields zero before its minimum applies.
    pub fn calculate_without_content(&self, available: Dimensions, outer: Dimensions) -> (r:
        Dimensions)
        ensures
            r.width == self.width.spec_calculate(0, available.width as int, outer.width as int),
            r.height == self.height.spec_calculate(0, available.height as int, outer.height as int),
    {
        self.calculate(Dimensions::new(0, 0), available, outer)
    }

    pub fn as_tuple(&self) -> (r: (SizingUnit, SizingUnit))
        ensures
            r == (self.width, self.height),
    {
        (self.width, self.height)
    }

    /// Both literal extents of a fully fixed sizing; an error as soon as
    /// either axis is dynamic.
    pub fn fixed(&self) -> (r: Result<Dimensions, &str>)
        ensures
            match r {
                Ok(d) => {
                    &&& self.width matches SizingUnit::Fixed(w)
                    &&& d.width == w
                    &&& self.height matches SizingUnit::Fixed(h)
                    &&& d.height == h
                },
                Err(_) => {
                    ||| !(self.width matches SizingUnit::Fixed(_))
                    ||| !(self.height matches SizingUnit::Fixed(_))
                },
            },
    {
        let result: Result<Dimensions, &str> = {
            match (self.width.fixed(), self.height.fixed()) {
                (Ok(width), Ok(height)) => Ok(Dimensions::new(width, height)),
                _ => Err(""),
            }
        };

        match result {
            Ok(x) => Ok(x),
            Err(_) => Err("Attempt to get fixed dimensions from dynamic units"),
        }
    }
}

} // verus!
