use super::common::{Direction, Sizing, SizingUnit};
use super::constraints::ConstraintUnit;
use super::element::{Element, ElementBuilder};
use super::rect::Rect;
use crate::mock::random_in_range;
use vstd::prelude::*;

verus! {

/// A random extent below `max`, snapped down to a multiple of five units.
pub fn random_dimension(max: i64) -> (r: i64)
    requires
        max >= 1,
    ensures
        0 <= r < max,
        r % 5 == 0,
{
    let max = random_in_range(0, max);
    max - max % 5
}

/// One of the two directions, drawn at random.
pub fn random_direction() -> Direction {
    let value = random_in_range(0, 2);

    match value {
        0 => Direction::Horizontal,
        _ => Direction::Vertical,
    }
}

/// A randomly oriented container sized to collapse along its own axis and
/// hold the given width across it; consumes between one and
/// `complexity`-many units of the complexity budget.
pub fn random_directional_list(bounds: Rect, complexity: &mut usize) -> (r: Element)
    requires
        *old(complexity) >= 1,
        bounds.dimensions.width >= 15,
        bounds.dimensions.height >= 15,
    ensures
        1 <= *old(complexity) - *final(complexity) <= *old(complexity),
        r.children@.len() == 0,
        ({
            let cs = bounds.dimensions.width;
            ||| (r.kind matches super::element::ElementKind::Directional(dl)
                && dl.direction == Direction::Horizontal && dl.spacing == 0 && r.sizing == (
            Sizing {
                width: SizingUnit::Collapse(ConstraintUnit::Unconstrained),
                height: SizingUnit::Fixed(cs),
            }))
            ||| (r.kind matches super::element::ElementKind::Directional(dl)
                && dl.direction == Direction::Vertical && dl.spacing == 0 && r.sizing == (Sizing {
                width: SizingUnit::Fixed(cs),
                height: SizingUnit::Collapse(ConstraintUnit::Unconstrained),
            }))
        }),
{
    let direction = random_direction();
    let space = random_in_range(1, 4) * 5;

    let available_space = match direction {
        Direction::Horizontal => bounds.dimensions.width,
        Direction::Vertical => bounds.dimensions.height,
    };

    let max_count = available_space / space;
    proof {
        assert(max_count >= 1) by (nonlinear_arith)
            requires
                available_space >= space,
                5 <= space <= 15,
                max_count == available_space as int / space as int,
        ;
    }

    let comp64: u64 = *complexity as u64;
    let count64: u64 = if (max_count as u64) < comp64 {
        max_count as u64
    } else {
        comp64
    };
    let count: usize = count64 as usize;

    // The prepared rows only consume the budget; the returned container
    // reports its own collapsed content.
    let mut children: Vec<Element> = Vec::new();

    let mut i: usize = 0;
    while i < count - 1
        invariant
            count >= 1,
        decreases count - 1 - i,
    {
        let (width, height) = direction.swap(
            SizingUnit::Fixed(space),
            SizingUnit::Stretch(ConstraintUnit::Unconstrained),
        );

        let element = Element {
            kind: super::element::ElementKind::Directional(
                super::directional::Directional::new(direction, 0),
            ),
            sizing: Sizing::new(width, height),
            padding: super::padding::Padding::empty(),
            alignment: super::alignment::Alignment::new(
                super::alignment::AlignUnit::Start,
                super::alignment::AlignUnit::Start,
            ),
            children: Vec::new(),
            label: None,
        };

        children.push(element);
        i = i + 1;
    }

    *complexity = *complexity - count;

    let container_space = direction.primary(bounds.dimensions.width, bounds.dimensions.width);
    let (width, height) = direction.swap(
        SizingUnit::Collapse(ConstraintUnit::Unconstrained),
        SizingUnit::Fixed(container_space),
    );

    Element {
        kind: super::element::ElementKind::Directional(
            super::directional::Directional::new(direction, 0),
        ),
        sizing: Sizing::new(width, height),
        padding: super::padding::Padding::empty(),
        alignment: super::alignment::Alignment::new(
            super::alignment::AlignUnit::Start,
            super::alignment::AlignUnit::Start,
        ),
        children: Vec::new(),
        label: None,
    }
}

} // verus!
