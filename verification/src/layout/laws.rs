use super::calculated::CalcModel;
use super::common::{Direction, SizingUnit};
use super::directional::Directional;
use super::element::{
    element_seq_size, element_size, lemma_element_seq_size, Element, ElementKind,
};
use super::model::{
    lemma_accum_lens, lemma_final_children_index, lemma_positions_len,
    pick_primary, pick_secondary, primary_unit, resolution_order, spec_accum, spec_box_bounds,
    spec_group_sums, spec_inner_bounds, spec_layout, spec_offsets, spec_positions,
};
use super::rect::RectModel;
use crate::units::{unit_add, unit_max, unit_min, unit_sub, UNIT_LIMIT};
use vstd::prelude::*;

verus! {

/// The extent of a rectangle along the given axis: its width along the
/// horizontal axis, its height along the vertical one.
pub open spec fn axis_len(m: RectModel, axis: Direction) -> int {
    pick_primary(axis, m.width, m.height)
}

/// A tree that contains no externally measured leaf. An external measurer
/// may couple the two axes (wrapped text grows downward as it loses width),
/// so the per-axis laws below are stated for trees without one.
pub open spec fn extern_free(e: Element) -> bool
    decreases e,
{
    &&& !(e.kind matches ElementKind::Extern(_))
    &&& extern_free_seq(e.children@)
}

pub open spec fn extern_free_seq(s: Seq<Element>) -> bool
    decreases s,
{
    s.len() == 0 || (extern_free(s[0]) && extern_free_seq(s.drop_first()))
}

pub proof fn lemma_extern_free_seq(s: Seq<Element>, i: int)
    requires
        extern_free_seq(s),
        0 <= i < s.len(),
    ensures
        extern_free(s[i]),
    decreases s,
{
    if i > 0 {
        lemma_extern_free_seq(s.drop_first(), i - 1);
    }
}


/// The axes of a tree without external measurers resolve independently:
/// the extent of the resulting box along one axis depends only on the
/// bounds along that same axis.
pub proof fn lemma_layout_axis(
    axis: Direction,
    e: Element,
    a1: RectModel,
    o1: RectModel,
    a2: RectModel,
    o2: RectModel,
)
    requires
        extern_free(e),
        axis_len(a1, axis) == axis_len(a2, axis),
        axis_len(o1, axis) == axis_len(o2, axis),
    ensures
        axis_len(spec_layout(e, a1, o1).rect, axis) == axis_len(spec_layout(e, a2, o2).rect, axis),
    decreases element_size(e), 1int, 0int,
{
    match e.kind {
        ElementKind::Empty => {},
        ElementKind::Extern(_) => {},
        ElementKind::Directional(dl) => {
            let d = dl.direction;
            let sp = dl.spacing as int;
            if e.children@.len() == 0 {
            } else {
                let cs = e.children@;
                let n = cs.len() as int;
                let order = resolution_order(cs, d);
                let box1_1 = spec_box_bounds(e.sizing, e.padding, d, sp, n, a1, o1, 0, 0);
                let box1_2 = spec_box_bounds(e.sizing, e.padding, d, sp, n, a2, o2, 0, 0);
                let inner1_1 = spec_inner_bounds(e.padding, box1_1);
                let inner1_2 = spec_inner_bounds(e.padding, box1_2);
                lemma_accum_axis(
                    axis,
                    cs,
                    d,
                    sp,
                    inner1_1,
                    inner1_2,
                    order,
                    order.len() as int,
                );
            }
        },
    }
}

/// The accumulation pass preserves axis independence: if two runs see the
/// same inner extent along one axis, every child extent they record along
/// that axis is the same.
pub proof fn lemma_accum_axis(
    axis: Direction,
    cs: Seq<Element>,
    d: Direction,
    sp: int,
    inner_a: RectModel,
    inner_b: RectModel,
    order: Seq<int>,
    k: int,
)
    requires
        extern_free_seq(cs),
        axis_len(inner_a, axis) == axis_len(inner_b, axis),
        cs.len() >= 1,
    ensures
        ({
            let st_a = spec_accum(
                cs,
                d,
                unit_sub(
                    pick_primary(d, inner_a.width, inner_a.height),
                    crate::units::unit_scale(cs.len() - 1, sp),
                ),
                pick_secondary(d, inner_a.width, inner_a.height),
                inner_a,
                order,
                k,
            );
            let st_b = spec_accum(
                cs,
                d,
                unit_sub(
                    pick_primary(d, inner_b.width, inner_b.height),
                    crate::units::unit_scale(cs.len() - 1, sp),
                ),
                pick_secondary(d, inner_b.width, inner_b.height),
                inner_b,
                order,
                k,
            );
            if axis == d {
                st_a.primary == st_b.primary && st_a.primary_sum == st_b.primary_sum
            } else {
                st_a.secondary == st_b.secondary && st_a.secondary_max == st_b.secondary_max
            }
        }),
    decreases element_seq_size(cs), 2int, k,
{
    if k > 0 {
        lemma_accum_axis(axis, cs, d, sp, inner_a, inner_b, order, k - 1);
        if !(k > order.len() || !(0 <= order[k - 1] < cs.len())) {
            let idx = order[k - 1];
            let child = cs[idx];
            lemma_element_seq_size(cs, idx);
            lemma_extern_free_seq(cs, idx);
            let ap_a = unit_sub(
                pick_primary(d, inner_a.width, inner_a.height),
                crate::units::unit_scale(cs.len() - 1, sp),
            );
            let ap_b = unit_sub(
                pick_primary(d, inner_b.width, inner_b.height),
                crate::units::unit_scale(cs.len() - 1, sp),
            );
            let as_a = pick_secondary(d, inner_a.width, inner_a.height);
            let as_b = pick_secondary(d, inner_b.width, inner_b.height);
            let st_a = spec_accum(cs, d, ap_a, as_a, inner_a, order, k - 1);
            let st_b = spec_accum(cs, d, ap_b, as_b, inner_b, order, k - 1);
            if primary_unit(child, d) matches SizingUnit::Stretch(_) {
                let rem_a = unit_sub(ap_a, st_a.primary_sum);
                let rem_b = unit_sub(ap_b, st_b.primary_sum);
                let syn_a = RectModel {
                    width: pick_primary(d, rem_a, as_a),
                    height: pick_secondary(d, rem_a, as_a),
                    x: 0,
                    y: 0,
                };
                let syn_b = RectModel {
                    width: pick_primary(d, rem_b, as_b),
                    height: pick_secondary(d, rem_b, as_b),
                    x: 0,
                    y: 0,
                };
                lemma_layout_axis(axis, child, syn_a, syn_a, syn_b, syn_b);
            } else {
                lemma_layout_axis(axis, child, inner_a, inner_a, inner_b, inner_b);
            }
        }
    }
}


/// The all-zero bounds rectangle, the canonical context in which a node's
/// intrinsic extent is taken.
pub open spec fn zero_rect() -> RectModel {
    RectModel { width: 0, height: 0, x: 0, y: 0 }
}

/// The intrinsic extent of a node along an axis: what the node resolves to
/// along that axis when it is given no space at all.
pub open spec fn intrinsic_extent(c: Element, axis: Direction) -> int {
    axis_len(spec_layout(c, zero_rect(), zero_rect()).rect, axis)
}

/// A node whose sizing along an axis is fixed or intrinsic resolves to the
/// same extent along that axis whatever bounds it is laid out against: a
/// fixed axis reads its literal, a collapsed axis only its own subtree.
pub proof fn lemma_rigid_extent(
    axis: Direction,
    c: Element,
    a1: RectModel,
    o1: RectModel,
    a2: RectModel,
    o2: RectModel,
)
    requires
        extern_free(c),
        pick_primary(axis, c.sizing.width, c.sizing.height) matches SizingUnit::Fixed(_)
            || pick_primary(axis, c.sizing.width, c.sizing.height)
            matches SizingUnit::Collapse(_),
    ensures
        axis_len(spec_layout(c, a1, o1).rect, axis) == axis_len(spec_layout(c, a2, o2).rect, axis),
{
    match c.kind {
        ElementKind::Empty => {},
        ElementKind::Extern(_) => {},
        ElementKind::Directional(dl) => {
            let d = dl.direction;
            let sp = dl.spacing as int;
            if c.children@.len() == 0 {
            } else {
                let cs = c.children@;
                let n = cs.len() as int;
                let order = resolution_order(cs, d);
                let box1_1 = spec_box_bounds(c.sizing, c.padding, d, sp, n, a1, o1, 0, 0);
                let box1_2 = spec_box_bounds(c.sizing, c.padding, d, sp, n, a2, o2, 0, 0);
                let inner1_1 = spec_inner_bounds(c.padding, box1_1);
                let inner1_2 = spec_inner_bounds(c.padding, box1_2);
                assert(axis_len(box1_1, axis) == axis_len(box1_2, axis));
                lemma_accum_axis(
                    axis,
                    cs,
                    d,
                    sp,
                    inner1_1,
                    inner1_2,
                    order,
                    order.len() as int,
                );
            }
        },
    }
}


/// Resolution-order invariance, first half: inside any directional
/// container, a child whose primary-axis sizing is fixed or intrinsic
/// resolves to exactly its intrinsic extent along that axis — whatever
/// bounds the container was given and wherever the child stands in the
/// children list.
pub proof fn lemma_rigid_child_extent(e: Element, a: RectModel, o: RectModel, i: int)
    requires
        e.kind matches ElementKind::Directional(_),
        0 <= i < e.children@.len(),
        extern_free(e.children@[i]),
        ({
            let d = (e.kind)->Directional_0.direction;
            ||| primary_unit(e.children@[i], d) matches SizingUnit::Fixed(_)
            ||| primary_unit(e.children@[i], d) matches SizingUnit::Collapse(_)
        }),
    ensures
        ({
            let d = (e.kind)->Directional_0.direction;
            axis_len(spec_layout(e, a, o).children[i].rect, d) == intrinsic_extent(
                e.children@[i],
                d,
            )
        }),
{
    let dl = (e.kind)->Directional_0;
    let d = dl.direction;
    let sp = dl.spacing as int;
    let cs = e.children@;
    let n = cs.len() as int;
    let order = resolution_order(cs, d);
    let box1 = spec_box_bounds(e.sizing, e.padding, d, sp, n, a, o, 0, 0);
    let inner1 = spec_inner_bounds(e.padding, box1);
    let ap1 = unit_sub(
        pick_primary(d, inner1.width, inner1.height),
        crate::units::unit_scale(n - 1, sp),
    );
    let as1 = pick_secondary(d, inner1.width, inner1.height);
    let st1 = spec_accum(cs, d, ap1, as1, inner1, order, order.len() as int);
    let box2 = spec_box_bounds(
        e.sizing,
        e.padding,
        d,
        sp,
        n,
        a,
        o,
        st1.primary_sum,
        st1.secondary_max,
    );
    let inner2 = spec_inner_bounds(e.padding, box2);
    let ap2 = unit_sub(
        pick_primary(d, inner2.width, inner2.height),
        crate::units::unit_scale(n - 1, sp),
    );
    let as2 = pick_secondary(d, inner2.width, inner2.height);
    let st2 = spec_accum(cs, d, ap2, as2, inner2, order, order.len() as int);
    let pos = spec_positions(cs, d, st2.primary, st2.secondary, sp, inner2, n);
    lemma_accum_lens(cs, d, ap2, as2, inner2, order, order.len() as int);
    lemma_positions_len(cs, d, st2.primary, st2.secondary, sp, inner2, n);
    lemma_final_children_index(
        cs,
        d,
        st2.primary,
        st2.secondary,
        pos.positions,
        inner2,
        n,
        i,
    );
    let designated = RectModel {
        width: pick_primary(d, st2.primary[i], st2.secondary[i]),
        height: pick_secondary(d, st2.primary[i], st2.secondary[i]),
        x: pos.positions[i].0,
        y: pos.positions[i].1,
    };
    assert(spec_layout(e, a, o).children[i] == spec_layout(cs[i], designated, inner2));
    lemma_rigid_extent(d, cs[i], designated, inner2, zero_rect(), zero_rect());
}

/// Resolution-order invariance, second half: two directional containers
/// laid out along the same axis give one and the same child — standing at
/// any position in either children list, among any siblings, against any
/// bounds — the same resolved extent along that axis, provided the child's
/// own sizing there is fixed or intrinsic. Re-ordering a children list can
/// therefore move such a child and re-size its stretching siblings, but
/// never change the child's own extent.
pub proof fn lemma_resolution_order_invariant(
    e1: Element,
    e2: Element,
    a1: RectModel,
    o1: RectModel,
    a2: RectModel,
    o2: RectModel,
    i1: int,
    i2: int,
)
    requires
        e1.kind matches ElementKind::Directional(dl1) && e2.kind matches ElementKind::Directional(
            dl2,
        ) && dl1.direction == dl2.direction,
        0 <= i1 < e1.children@.len(),
        0 <= i2 < e2.children@.len(),
        e1.children@[i1] == e2.children@[i2],
        extern_free(e1.children@[i1]),
        ({
            let d = (e1.kind)->Directional_0.direction;
            ||| primary_unit(e1.children@[i1], d) matches SizingUnit::Fixed(_)
            ||| primary_unit(e1.children@[i1], d) matches SizingUnit::Collapse(_)
        }),
    ensures
        ({
            let d = (e1.kind)->Directional_0.direction;
            axis_len(spec_layout(e1, a1, o1).children[i1].rect, d) == axis_len(
                spec_layout(e2, a2, o2).children[i2].rect,
                d,
            )
        }),
{
    lemma_rigid_child_extent(e1, a1, o1, i1);
    lemma_rigid_child_extent(e2, a2, o2, i2);
}


/// Every alignment group's running total stays between one negative gap and
/// the saturation limit while the extents it adds up are non-negative.
pub proof fn lemma_group_sums_bounds(
    cs: Seq<Element>,
    d: Direction,
    sizes: Seq<int>,
    spacing: int,
    k: int,
)
    requires
        0 <= spacing <= UNIT_LIMIT as int,
        forall|j: int| 0 <= j < sizes.len() ==> #[trigger] sizes[j] >= 0,
    ensures
        ({
            let sums = spec_group_sums(cs, d, sizes, spacing, k);
            &&& -spacing <= sums.0 <= UNIT_LIMIT as int
            &&& -spacing <= sums.1 <= UNIT_LIMIT as int
            &&& -spacing <= sums.2 <= UNIT_LIMIT as int
        }),
    decreases k,
{
    if k > 0 {
        lemma_group_sums_bounds(cs, d, sizes, spacing, k - 1);
    }
}

/// The alignment grouping invariant: whenever the children of a directional
/// container carry non-negative extents, the gap is non-negative, and the
/// three alignment groups fit inside the primary extent with a gap on each
/// side of the middle group, the computed offsets keep the groups apart —
/// the start group ends at or before the middle group's first offset, and
/// the middle group ends at least one gap before the end group's first
/// offset.
pub proof fn lemma_alignment_grouping(
    cs: Seq<Element>,
    d: Direction,
    sizes: Seq<int>,
    spacing: int,
    inner_primary: int,
)
    requires
        0 <= spacing,
        0 <= inner_primary,
        inner_primary + 2 * spacing <= UNIT_LIMIT as int,
        forall|j: int| 0 <= j < sizes.len() ==> #[trigger] sizes[j] >= 0,
        ({
            let sums = spec_group_sums(cs, d, sizes, spacing, cs.len() as int);
            sums.0 + sums.1 + sums.2 + 2 * spacing <= inner_primary
        }),
    ensures
        ({
            let sums = spec_group_sums(cs, d, sizes, spacing, cs.len() as int);
            let offs = spec_offsets(cs, d, sizes, spacing, inner_primary);
            &&& sums.0 + spacing <= offs.0
            &&& offs.0 + sums.1 + spacing <= offs.1
        }),
{
    lemma_group_sums_bounds(cs, d, sizes, spacing, cs.len() as int);
}

} // verus!
