use super::alignment::AlignUnit;
use super::calculated::CalcModel;
use super::common::{Direction, Sizing, SizingUnit};
use super::element::{
    element_seq_size, element_size, lemma_element_seq_size, Element, ElementKind, ElementLayout,
};
use super::padding::{pad_height, pad_width, Padding};
use super::rect::RectModel;
use crate::units::{
    unit_add, unit_half, unit_max, unit_min, unit_scale, unit_sub,
};
use vstd::prelude::*;

verus! {

/// The component of an (x, y) pair that lies along `d`.
pub open spec fn pick_primary<T>(d: Direction, x: T, y: T) -> T {
    if d.is_horizontal() {
        x
    } else {
        y
    }
}

/// The component of an (x, y) pair across `d`.
pub open spec fn pick_secondary<T>(d: Direction, x: T, y: T) -> T {
    if d.is_horizontal() {
        y
    } else {
        x
    }
}

/// The resolution rank of a child's sizing along the container's axis.
pub open spec fn primary_rank(e: Element, d: Direction) -> int {
    pick_primary(d, e.sizing.width, e.sizing.height).spec_index()
}

/// The child's sizing unit along the container's axis.
pub open spec fn primary_unit(e: Element, d: Direction) -> SizingUnit {
    pick_primary(d, e.sizing.width, e.sizing.height)
}

/// The child's sizing unit across the container's axis.
pub open spec fn secondary_unit(e: Element, d: Direction) -> SizingUnit {
    pick_secondary(d, e.sizing.width, e.sizing.height)
}

/// The child's alignment along the container's axis.
pub open spec fn primary_align(e: Element, d: Direction) -> AlignUnit {
    pick_primary(d, e.alignment.horizontal, e.alignment.vertical)
}

/// The child's alignment across the container's axis.
pub open spec fn secondary_align(e: Element, d: Direction) -> AlignUnit {
    pick_secondary(d, e.alignment.horizontal, e.alignment.vertical)
}

/// The positions, in list order, of the first `k` children whose primary
/// sizing has rank `key`.
pub open spec fn rank_bucket(cs: Seq<Element>, d: Direction, key: int, k: int) -> Seq<int>
    decreases k,
{
    if k <= 0 || k > cs.len() {
        Seq::empty()
    } else if primary_rank(cs[k - 1], d) == key {
        rank_bucket(cs, d, key, k - 1).push(k - 1)
    } else {
        rank_bucket(cs, d, key, k - 1)
    }
}

/// The concatenation of the rank buckets up to and including `key`.
pub open spec fn rank_buckets_upto(cs: Seq<Element>, d: Direction, key: int) -> Seq<int>
    decreases key + 1,
{
    if key < 0 {
        Seq::empty()
    } else {
        rank_buckets_upto(cs, d, key - 1) + rank_bucket(cs, d, key, cs.len() as int)
    }
}

/// The order in which children are resolved: stably sorted by the rank of
/// their primary-axis sizing, so that fixed, intrinsic and percent children
/// claim space before stretch children.
pub open spec fn resolution_order(cs: Seq<Element>, d: Direction) -> Seq<int> {
    rank_buckets_upto(cs, d, 9)
}

/// The content rectangle left inside a box once its padding is taken out.
pub open spec fn spec_inner_bounds(padding: Padding, bounds: RectModel) -> RectModel {
    RectModel {
        width: unit_sub(bounds.width, pad_width(padding)),
        height: unit_sub(bounds.height, pad_height(padding)),
        x: unit_add(bounds.x, padding.left as int),
        y: unit_add(bounds.y, padding.top as int),
    }
}

/// A container's own box: the accumulated content extents, expanded by the
/// spacing gaps and the padding, fed through the container's sizing policy
/// against the available and outer bounds; the box keeps the available
/// position.
pub open spec fn spec_box_bounds(
    sizing: Sizing,
    padding: Padding,
    d: Direction,
    spacing: int,
    n: int,
    avail: RectModel,
    outer: RectModel,
    primary_intrinsic: int,
    secondary_intrinsic: int,
) -> RectModel {
    let primary_total = unit_add(primary_intrinsic, unit_scale(n - 1, spacing));
    let content_w = pick_primary(d, primary_total, secondary_intrinsic);
    let content_h = pick_secondary(d, primary_total, secondary_intrinsic);
    RectModel {
        width: sizing.width.spec_calculate(
            unit_add(content_w, pad_width(padding)),
            avail.width,
            outer.width,
        ),
        height: sizing.height.spec_calculate(
            unit_add(content_h, pad_height(padding)),
            avail.height,
            outer.height,
        ),
        x: avail.x,
        y: avail.y,
    }
}

/// The running result of the accumulation pass: each child's resolved
/// primary and secondary extent (indexed by list position), the sum of the
/// primary extents claimed so far, and the largest secondary extent seen on
/// a child that does not stretch across the axis.
pub struct AccumModel {
    pub primary: Seq<int>,
    pub secondary: Seq<int>,
    pub primary_sum: int,
    pub secondary_max: int,
}

/// Measures the first `k` children of `order`. Children whose primary axis
/// is fixed, intrinsic or percent are measured against the inner bounds as
/// both contexts; a stretch child is measured against a synthetic rectangle
/// holding whatever primary space is still unclaimed.
pub open spec fn spec_accum(
    cs: Seq<Element>,
    d: Direction,
    avail_primary: int,
    avail_secondary: int,
    inner: RectModel,
    order: Seq<int>,
    k: int,
) -> AccumModel
    decreases element_seq_size(cs), 3int, k,
        via spec_accum_decreases
{
    if k <= 0 {
        AccumModel {
            primary: Seq::new(cs.len(), |i: int| 0),
            secondary: Seq::new(cs.len(), |i: int| 0),
            primary_sum: 0,
            secondary_max: 0,
        }
    } else {
        let st = spec_accum(cs, d, avail_primary, avail_secondary, inner, order, k - 1);
        if k > order.len() || !(0 <= order[k - 1] < cs.len()) {
            st
        } else {
            let idx = order[k - 1];
            let child = cs[idx];
            let measured = if primary_unit(child, d) matches SizingUnit::Stretch(_) {
                let remaining = unit_sub(avail_primary, st.primary_sum);
                let synthetic = RectModel {
                    width: pick_primary(d, remaining, avail_secondary),
                    height: pick_secondary(d, remaining, avail_secondary),
                    x: 0,
                    y: 0,
                };
                spec_layout(child, synthetic, synthetic)
            } else {
                spec_layout(child, inner, inner)
            };
            let p = pick_primary(d, measured.rect.width, measured.rect.height);
            let s = pick_secondary(d, measured.rect.width, measured.rect.height);
            AccumModel {
                primary: st.primary.update(idx, p),
                secondary: st.secondary.update(idx, s),
                primary_sum: unit_add(st.primary_sum, p),
                secondary_max: if secondary_unit(child, d) matches SizingUnit::Stretch(_) {
                    st.secondary_max
                } else {
                    unit_max(st.secondary_max, s)
                },
            }
        }
    }
}

#[via_fn]
proof fn spec_accum_decreases(
    cs: Seq<Element>,
    d: Direction,
    avail_primary: int,
    avail_secondary: int,
    inner: RectModel,
    order: Seq<int>,
    k: int,
) {
    if k > 0 && !(k > order.len() || !(0 <= order[k - 1] < cs.len())) {
        lemma_element_seq_size(cs, order[k - 1]);
    }
}

/// The cumulative extents of the three alignment groups over the first `k`
/// children: each group starts one gap in the negative and grows by a
/// child's extent plus one gap, so a group with `m` members totals their
/// extents plus `m - 1` gaps.
pub open spec fn spec_group_sums(
    cs: Seq<Element>,
    d: Direction,
    sizes: Seq<int>,
    spacing: int,
    k: int,
) -> (int, int, int)
    decreases k,
{
    if k <= 0 {
        (unit_sub(0, spacing), unit_sub(0, spacing), unit_sub(0, spacing))
    } else {
        let st = spec_group_sums(cs, d, sizes, spacing, k - 1);
        if k > cs.len() || k > sizes.len() {
            st
        } else {
            let step = unit_add(sizes[k - 1], spacing);
            match primary_align(cs[k - 1], d) {
                AlignUnit::Start => (unit_add(st.0, step), st.1, st.2),
                AlignUnit::Middle => (st.0, unit_add(st.1, step), st.2),
                AlignUnit::End => (st.0, st.1, unit_add(st.2, step)),
            }
        }
    }
}

/// The two derived offsets of the position pass: where the middle group
/// begins, centered in the primary extent but clamped between the end of
/// the start group and the beginning of the end group, and where the end
/// group begins, its total filled backward from the far edge.
pub open spec fn spec_offsets(
    cs: Seq<Element>,
    d: Direction,
    sizes: Seq<int>,
    spacing: int,
    inner_primary: int,
) -> (int, int) {
    let sums = spec_group_sums(cs, d, sizes, spacing, cs.len() as int);
    let end_offset = unit_sub(inner_primary, sums.2);
    let middle_center = unit_sub(unit_half(inner_primary), unit_half(sums.1));
    let start_end_bound = unit_add(sums.0, spacing);
    let end_start_bound = unit_sub(unit_sub(end_offset, sums.1), spacing);
    let middle_offset = unit_min(unit_max(middle_center, start_end_bound), end_start_bound);
    (middle_offset, end_offset)
}

/// The state of the position pass after the first `k` children: the next
/// free offset of each alignment group and the positions handed out so far,
/// each the pre-increment offset of its group, swapped into (x, y) and
/// shifted by the inner origin.
pub struct PosModel {
    pub start_offset: int,
    pub middle_offset: int,
    pub end_offset: int,
    pub positions: Seq<(int, int)>,
}

pub open spec fn spec_positions(
    cs: Seq<Element>,
    d: Direction,
    prim: Seq<int>,
    sec: Seq<int>,
    spacing: int,
    inner: RectModel,
    k: int,
) -> PosModel
    decreases k,
{
    if k <= 0 {
        let offs = spec_offsets(cs, d, prim, spacing, pick_primary(d, inner.width, inner.height));
        PosModel {
            start_offset: 0,
            middle_offset: offs.0,
            end_offset: offs.1,
            positions: Seq::empty(),
        }
    } else {
        let st = spec_positions(cs, d, prim, sec, spacing, inner, k - 1);
        if k > cs.len() || k > prim.len() || k > sec.len() {
            st
        } else {
            let child = cs[k - 1];
            let step = unit_add(prim[k - 1], spacing);
            let (pos_primary, next) = match primary_align(child, d) {
                AlignUnit::Start => (
                    st.start_offset,
                    PosModel { start_offset: unit_add(st.start_offset, step), ..st },
                ),
                AlignUnit::Middle => (
                    st.middle_offset,
                    PosModel { middle_offset: unit_add(st.middle_offset, step), ..st },
                ),
                AlignUnit::End => (
                    st.end_offset,
                    PosModel { end_offset: unit_add(st.end_offset, step), ..st },
                ),
            };
            let pos_secondary = secondary_align(child, d).spec_calculate(
                sec[k - 1],
                pick_secondary(d, inner.width, inner.height),
            );
            let x = pick_primary(d, pos_primary, pos_secondary);
            let y = pick_secondary(d, pos_primary, pos_secondary);
            PosModel {
                positions: st.positions.push(
                    (unit_add(inner.x, x), unit_add(inner.y, y)),
                ),
                ..next
            }
        }
    }
}

/// The recursive layout of the first `k` children, each against the
/// rectangle the parent assigned it, with the parent's content box as the
/// outer context.
pub open spec fn spec_final_children(
    cs: Seq<Element>,
    d: Direction,
    prim: Seq<int>,
    sec: Seq<int>,
    positions: Seq<(int, int)>,
    inner: RectModel,
    k: int,
) -> Seq<CalcModel>
    decreases element_seq_size(cs), 3int, k,
        via spec_final_children_decreases
{
    if k <= 0 || k > cs.len() || k > prim.len() || k > sec.len() || k > positions.len() {
        Seq::empty()
    } else {
        let designated = RectModel {
            width: pick_primary(d, prim[k - 1], sec[k - 1]),
            height: pick_secondary(d, prim[k - 1], sec[k - 1]),
            x: positions[k - 1].0,
            y: positions[k - 1].1,
        };
        spec_final_children(cs, d, prim, sec, positions, inner, k - 1).push(
            spec_layout(cs[k - 1], designated, inner),
        )
    }
}

#[via_fn]
proof fn spec_final_children_decreases(
    cs: Seq<Element>,
    d: Direction,
    prim: Seq<int>,
    sec: Seq<int>,
    positions: Seq<(int, int)>,
    inner: RectModel,
    k: int,
) {
    if !(k <= 0 || k > cs.len() || k > prim.len() || k > sec.len() || k > positions.len()) {
        lemma_element_seq_size(cs, k - 1);
    }
}

/// One directional container resolved against its bounds. A childless
/// container reports its sizing of empty content. A childful one derives a
/// provisional box from zero intrinsics, measures its children inside it,
/// corrects the box with the accumulated intrinsics, measures the children
/// again inside the corrected content box, assigns group offsets, and lays
/// every child out once more against its designated rectangle.
pub open spec fn spec_directional(
    d: Direction,
    spacing: int,
    e: Element,
    avail: RectModel,
    outer: RectModel,
) -> CalcModel
    decreases element_size(e), 1int, 0int,
{
    if e.children@.len() == 0 {
        CalcModel {
            rect: RectModel {
                width: e.sizing.width.spec_calculate(0, avail.width, outer.width),
                height: e.sizing.height.spec_calculate(0, avail.height, outer.height),
                x: avail.x,
                y: avail.y,
            },
            children: Seq::empty(),
        }
    } else {
        let cs = e.children@;
        let n = cs.len() as int;
        let order = resolution_order(cs, d);
        let box1 = spec_box_bounds(e.sizing, e.padding, d, spacing, n, avail, outer, 0, 0);
        let inner1 = spec_inner_bounds(e.padding, box1);
        let ap1 = unit_sub(
            pick_primary(d, inner1.width, inner1.height),
            unit_scale(n - 1, spacing),
        );
        let as1 = pick_secondary(d, inner1.width, inner1.height);
        let st1 = spec_accum(cs, d, ap1, as1, inner1, order, order.len() as int);
        let box2 = spec_box_bounds(
            e.sizing,
            e.padding,
            d,
            spacing,
            n,
            avail,
            outer,
            st1.primary_sum,
            st1.secondary_max,
        );
        let inner2 = spec_inner_bounds(e.padding, box2);
        let ap2 = unit_sub(
            pick_primary(d, inner2.width, inner2.height),
            unit_scale(n - 1, spacing),
        );
        let as2 = pick_secondary(d, inner2.width, inner2.height);
        let st2 = spec_accum(cs, d, ap2, as2, inner2, order, order.len() as int);
        let pos = spec_positions(cs, d, st2.primary, st2.secondary, spacing, inner2, n);
        CalcModel {
            rect: box2,
            children: spec_final_children(
                cs,
                d,
                st2.primary,
                st2.secondary,
                pos.positions,
                inner2,
                n,
            ),
        }
    }
}

/// The layout of one node against the rectangle it may fill and the
/// resolved ancestor box percentages measure against. This is the function
/// `Element::calculate` is proved to compute, so a layout pass is a pure
/// function of the input tree and the two rectangles.
pub open spec fn spec_layout(e: Element, avail: RectModel, outer: RectModel) -> CalcModel
    decreases element_size(e), 2int, 0int,
{
    match e.kind {
        ElementKind::Directional(dl) => spec_directional(
            dl.direction,
            dl.spacing as int,
            e,
            avail,
            outer,
        ),
        ElementKind::Extern(t) => t.spec_measure(&e, avail, outer),
        ElementKind::Empty => CalcModel {
            rect: RectModel { width: 0, height: 0, x: 0, y: 0 },
            children: Seq::empty(),
        },
    }
}


pub proof fn lemma_accum_lens(
    cs: Seq<Element>,
    d: Direction,
    avail_primary: int,
    avail_secondary: int,
    inner: RectModel,
    order: Seq<int>,
    k: int,
)
    ensures
        spec_accum(cs, d, avail_primary, avail_secondary, inner, order, k).primary.len()
            == cs.len(),
        spec_accum(cs, d, avail_primary, avail_secondary, inner, order, k).secondary.len()
            == cs.len(),
    decreases k,
{
    if k > 0 {
        lemma_accum_lens(cs, d, avail_primary, avail_secondary, inner, order, k - 1);
    }
}

pub proof fn lemma_positions_len(
    cs: Seq<Element>,
    d: Direction,
    prim: Seq<int>,
    sec: Seq<int>,
    spacing: int,
    inner: RectModel,
    k: int,
)
    requires
        prim.len() >= cs.len(),
        sec.len() >= cs.len(),
        0 <= k <= cs.len(),
    ensures
        spec_positions(cs, d, prim, sec, spacing, inner, k).positions.len() == k,
    decreases k,
{
    if k > 0 {
        lemma_positions_len(cs, d, prim, sec, spacing, inner, k - 1);
    }
}


pub proof fn lemma_final_children_len(
    cs: Seq<Element>,
    d: Direction,
    prim: Seq<int>,
    sec: Seq<int>,
    positions: Seq<(int, int)>,
    inner: RectModel,
    k: int,
)
    requires
        0 <= k <= cs.len(),
        prim.len() >= cs.len(),
        sec.len() >= cs.len(),
        positions.len() >= cs.len(),
    ensures
        spec_final_children(cs, d, prim, sec, positions, inner, k).len() == k,
    decreases k,
{
    if k > 0 {
        lemma_final_children_len(cs, d, prim, sec, positions, inner, k - 1);
    }
}


pub proof fn lemma_final_children_index(
    cs: Seq<Element>,
    d: Direction,
    prim: Seq<int>,
    sec: Seq<int>,
    positions: Seq<(int, int)>,
    inner: RectModel,
    k: int,
    i: int,
)
    requires
        0 <= i < k <= cs.len(),
        prim.len() >= cs.len(),
        sec.len() >= cs.len(),
        positions.len() >= cs.len(),
    ensures
        spec_final_children(cs, d, prim, sec, positions, inner, k)[i] == spec_layout(
            cs[i],
            RectModel {
                width: pick_primary(d, prim[i], sec[i]),
                height: pick_secondary(d, prim[i], sec[i]),
                x: positions[i].0,
                y: positions[i].1,
            },
            inner,
        ),
    decreases k,
{
    lemma_final_children_len(cs, d, prim, sec, positions, inner, k - 1);
    if i < k - 1 {
        lemma_final_children_index(cs, d, prim, sec, positions, inner, k - 1, i);
    }
}

} // verus!
