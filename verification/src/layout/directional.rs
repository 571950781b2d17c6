use super::alignment::AlignUnit;
use super::calculated::{lemma_calc_children_view, CalcModel, CalculatedElement};
use super::common::{Direction, SizingUnit};
use super::element::{
    element_seq_size, element_size, lemma_element_children_size, lemma_element_seq_size, Element,
};
use super::model::{
    lemma_accum_lens, lemma_final_children_len, lemma_positions_len, pick_primary,
    pick_secondary, primary_rank, rank_bucket, rank_buckets_upto, resolution_order, spec_accum,
    spec_box_bounds, spec_directional, spec_final_children, spec_group_sums, spec_inner_bounds,
    spec_layout, spec_offsets, spec_positions,
};
use super::rect::{Rect, RectModel};
use crate::units::{
    add_units, half_unit, max_units, min_units, scale_units, sub_units, unit_scale, unit_sub,
};
use vstd::prelude::*;

verus! {

/// Lays out an ordered list of children along one axis, with a uniform gap
/// between neighbours.
#[derive(Clone, Copy, Debug)]
pub struct Directional {
    /// Direction of layout.
    pub direction: Direction,
    /// Spacing between children.
    pub spacing: i64,
}

impl Directional {
    pub fn new(direction: Direction, spacing: i64) -> (r: Directional)
        ensures
            r == (Directional { direction, spacing }),
    {
        Directional { direction, spacing }
    }

    /// The content rectangle the children are measured against: the box
    /// shrunk by the padding, its origin moved past the left and top pads.
    fn calculate_inner_bounds(&self, element: &Element, box_bounds: &Rect) -> (r: Rect)
        ensures
            r@ == spec_inner_bounds(element.padding, box_bounds@),
    {
        let (top, bottom, left, right) = element.padding().to_tuple();

        let (mut width, mut height) = box_bounds.dimensions.to_tuple();
        let (mut x, mut y) = box_bounds.position.to_tuple();

        width = sub_units(width, add_units(left, right));
        height = sub_units(height, add_units(top, bottom));

        x = add_units(x, left);
        y = add_units(y, top);

        Rect::new(width, height, x, y)
    }

    /// The container's own box: the accumulated child extents plus gaps and
    /// padding, fed through the container's sizing policy.
    fn calculate_box_bounds(
        &self,
        element: &Element,
        available_bounds: &Rect,
        outer_bounds: &Rect,
        primary_intrinsic: i64,
        secondary_intrinsic: i64,
    ) -> (r: Rect)
        requires
            element.children@.len() >= 1,
        ensures
            r@ == spec_box_bounds(
                element.sizing,
                element.padding,
                self.direction,
                self.spacing as int,
                element.children@.len() as int,
                available_bounds@,
                outer_bounds@,
                primary_intrinsic as int,
                secondary_intrinsic as int,
            ),
    {
        let inner = {
            let primary_total = add_units(
                primary_intrinsic,
                scale_units(element.children.len() - 1, self.spacing),
            );

            let (width, height) = self.direction.swap(primary_total, secondary_intrinsic);
            let (top, bottom, left, right) = element.padding().to_tuple();

            super::dimension::Dimensions::new(
                add_units(width, add_units(left, right)),
                add_units(height, add_units(top, bottom)),
            )
        };

        Rect::from_dimensions_and_position(
            element.sizing().calculate(
                inner,
                available_bounds.dimensions,
                outer_bounds.dimensions,
            ),
            available_bounds.position,
        )
    }

    /// Where the middle and end alignment groups begin: the middle centered
    /// but clamped between the other two groups, the end filled backward
    /// from the far edge.
    fn calculate_position_offsets(
        &self,
        accumulations: &Vec<i64>,
        children: &Vec<Element>,
        inner_bounds: &Rect,
    ) -> (r: (i64, i64))
        ensures
            (r.0 as int, r.1 as int) == spec_offsets(
                children@,
                self.direction,
                accumulations@.map_values(|v: i64| v as int),
                self.spacing as int,
                if self.direction.is_horizontal() {
                    inner_bounds@.width
                } else {
                    inner_bounds@.height
                },
            ),
    {
        let ghost sizes = accumulations@.map_values(|v: i64| v as int);
        let (width, height) = inner_bounds.dimensions.to_tuple();
        let primary = self.direction.primary(width, height);

        let mut start_accumulation = sub_units(0, self.spacing);
        let mut middle_accumulation = sub_units(0, self.spacing);
        let mut end_accumulation = sub_units(0, self.spacing);

        let mut i: usize = 0;
        while i < children.len()
            invariant
                i <= children@.len(),
                sizes == accumulations@.map_values(|v: i64| v as int),
                (
                    start_accumulation as int,
                    middle_accumulation as int,
                    end_accumulation as int,
                ) == spec_group_sums(
                    children@,
                    self.direction,
                    sizes,
                    self.spacing as int,
                    i as int,
                ),
            decreases children@.len() - i,
        {
            if i < accumulations.len() {
                let child = &children[i];
                let accumulation = accumulations[i];

                let (vertical, horizontal) = child.alignment().as_tuple();
                let unit = self.direction.primary(vertical, horizontal);

                let step = add_units(accumulation, self.spacing);
                match unit {
                    super::alignment::AlignUnit::Start => {
                        start_accumulation = add_units(start_accumulation, step);
                    },
                    super::alignment::AlignUnit::Middle => {
                        middle_accumulation = add_units(middle_accumulation, step);
                    },
                    super::alignment::AlignUnit::End => {
                        end_accumulation = add_units(end_accumulation, step);
                    },
                }
            }
            i = i + 1;
        }

        let end_offset = sub_units(primary, end_accumulation);

        let middle_center = sub_units(half_unit(primary), half_unit(middle_accumulation));

        let start_end_bound = add_units(start_accumulation, self.spacing);
        let end_start_bound = sub_units(sub_units(end_offset, middle_accumulation), self.spacing);

        let middle_offset = min_units(max_units(middle_center, start_end_bound), end_start_bound);

        // There's no need for a start offset, it's always 0.
        (middle_offset, end_offset)
    }

    /// The order in which children claim space: stably sorted so that fixed,
    /// intrinsic and percent sizings resolve before stretch ones. Computing
    /// stretch first would double-count or starve the shared space.
    fn sort_primary_indices(&self, element: &Element) -> (r: Vec<usize>)
        ensures
            r@.map_values(|u: usize| u as int) == resolution_order(
                element.children@,
                self.direction,
            ),
            forall|j: int| 0 <= j < r@.len() ==> (#[trigger] r@[j]) < element.children@.len(),
    {
        let children = element.children();
        let n = children.len();
        let mut indices: Vec<usize> = Vec::new();

        let mut key: u32 = 0;
        while key <= 9
            invariant
                key <= 10,
                n == element.children@.len(),
                children@ == element.children@,
                indices@.map_values(|u: usize| u as int) == rank_buckets_upto(
                    element.children@,
                    self.direction,
                    key as int - 1,
                ),
                forall|j: int|
                    0 <= j < indices@.len() ==> (#[trigger] indices@[j]) < element.children@.len(),
            decreases 10 - key,
        {
            let mut i: usize = 0;
            proof {
                assert(indices@.map_values(|u: usize| u as int) =~= rank_buckets_upto(
                    element.children@,
                    self.direction,
                    key as int - 1,
                ) + rank_bucket(element.children@, self.direction, key as int, 0));
            }
            while i < n
                invariant
                    i <= n,
                    key <= 9,
                    n == element.children@.len(),
                    children@ == element.children@,
                    indices@.map_values(|u: usize| u as int) == rank_buckets_upto(
                        element.children@,
                        self.direction,
                        key as int - 1,
                    ) + rank_bucket(element.children@, self.direction, key as int, i as int),
                    forall|j: int|
                        0 <= j < indices@.len() ==> (#[trigger] indices@[j])
                            < element.children@.len(),
                decreases n - i,
            {
                let child = &children[i];

                let (width, height) = child.sizing().as_tuple();
                let sizing = self.direction.primary(width, height);

                if sizing.index() == key {
                    let ghost pre = indices@;
                    indices.push(i);
                    proof {
                        assert(indices@ == pre.push(i));
                        assert(pre.map_values(|u: usize| u as int) == rank_buckets_upto(
                            element.children@,
                            self.direction,
                            key as int - 1,
                        ) + rank_bucket(element.children@, self.direction, key as int, i as int));
                        assert(pre.map_values(|u: usize| u as int).len() == pre.len());
                        assert(primary_rank(element.children@[i as int], self.direction)
                            == key as int);
                        assert(rank_bucket(
                            element.children@,
                            self.direction,
                            key as int,
                            i as int + 1,
                        ) == rank_bucket(
                            element.children@,
                            self.direction,
                            key as int,
                            i as int,
                        ).push(i as int));
                        let expected = rank_buckets_upto(
                            element.children@,
                            self.direction,
                            key as int - 1,
                        ) + rank_bucket(
                            element.children@,
                            self.direction,
                            key as int,
                            i as int + 1,
                        );
                        let got = indices@.map_values(|u: usize| u as int);
                        assert(got.len() == expected.len());
                        assert forall|j: int| 0 <= j < got.len() implies got[j] == expected[j] by {
                            assert(got[j] == indices@[j] as int);
                            if j < pre.len() {
                                assert(indices@[j] == pre[j]);
                                assert(pre.map_values(|u: usize| u as int)[j] == pre[j] as int);
                            } else {
                                assert(indices@[j] == i);
                            }
                        }
                        assert(got =~= expected);
                    }
                }
                i = i + 1;
            }
            key = key + 1;
            proof {
                assert(indices@.map_values(|u: usize| u as int) =~= rank_buckets_upto(
                    element.children@,
                    self.direction,
                    key as int - 1,
                ));
            }
        }

        indices
    }

    /// Each child's final position: its group's running offset along the
    /// primary axis, its own alignment across the secondary axis, shifted by
    /// the inner origin.
    fn calculate_positions(
        &self,
        element: &Element,
        primary_accumulations: &Vec<i64>,
        secondary_accumulations: &Vec<i64>,
        inner_bounds: &Rect,
    ) -> (r: Vec<(i64, i64)>)
        requires
            primary_accumulations@.len() == element.children@.len(),
            secondary_accumulations@.len() == element.children@.len(),
        ensures
            r@.len() == element.children@.len(),
            forall|j: int|
                0 <= j < r@.len() ==> ((#[trigger] r@[j]).0 as int, r@[j].1 as int)
                    == spec_positions(
                    element.children@,
                    self.direction,
                    primary_accumulations@.map_values(|v: i64| v as int),
                    secondary_accumulations@.map_values(|v: i64| v as int),
                    self.spacing as int,
                    inner_bounds@,
                    element.children@.len() as int,
                ).positions[j],
    {
        let ghost prim = primary_accumulations@.map_values(|v: i64| v as int);
        let ghost sec = secondary_accumulations@.map_values(|v: i64| v as int);
        let children = element.children();
        let (offset_x, offset_y) = inner_bounds.position.to_tuple();

        let secondary_bounds = {
            let (width, height) = inner_bounds.dimensions.to_tuple();
            self.direction.secondary(width, height)
        };

        let (middle_start, end_start) = self.calculate_position_offsets(
            primary_accumulations,
            children,
            inner_bounds,
        );

        let mut start_offset: i64 = 0;
        let mut middle_offset: i64 = middle_start;
        let mut end_offset: i64 = end_start;

        let mut out: Vec<(i64, i64)> = Vec::new();
        let mut i: usize = 0;
        while i < children.len()
            invariant
                i <= children@.len(),
                children@ == element.children@,
                prim == primary_accumulations@.map_values(|v: i64| v as int),
                sec == secondary_accumulations@.map_values(|v: i64| v as int),
                prim.len() == children@.len(),
                sec.len() == children@.len(),
                secondary_bounds as int == pick_secondary(
                    self.direction,
                    inner_bounds@.width,
                    inner_bounds@.height,
                ),
                offset_x == inner_bounds.position.x,
                offset_y == inner_bounds.position.y,
                ({
                    let st = spec_positions(
                        children@,
                        self.direction,
                        prim,
                        sec,
                        self.spacing as int,
                        inner_bounds@,
                        i as int,
                    );
                    &&& start_offset as int == st.start_offset
                    &&& middle_offset as int == st.middle_offset
                    &&& end_offset as int == st.end_offset
                    &&& out@.len() == st.positions.len()
                    &&& out@.len() == i
                    &&& forall|j: int|
                        0 <= j < out@.len() ==> ((#[trigger] out@[j]).0 as int, out@[j].1 as int)
                            == st.positions[j]
                }),
            decreases children@.len() - i,
        {
            let ghost st_pre = spec_positions(
                children@,
                self.direction,
                prim,
                sec,
                self.spacing as int,
                inner_bounds@,
                i as int,
            );
            let child = &children[i];
            let accumulation = primary_accumulations[i];

            let (vertical, horizontal) = child.alignment().as_tuple();
            let (primary, secondary) = self.direction.swap(vertical, horizontal);

            let step = add_units(accumulation, self.spacing);
            let primary_offset = match primary {
                AlignUnit::Start => {
                    let previous = start_offset;
                    start_offset = add_units(start_offset, step);
                    previous
                },
                AlignUnit::Middle => {
                    let previous = middle_offset;
                    middle_offset = add_units(middle_offset, step);
                    previous
                },
                AlignUnit::End => {
                    let previous = end_offset;
                    end_offset = add_units(end_offset, step);
                    previous
                },
            };

            let secondary_offset = secondary.calculate(
                secondary_accumulations[i],
                secondary_bounds,
            );

            let (x, y) = self.direction.swap(primary_offset, secondary_offset);

            let ghost pre_out = out@;
            out.push((add_units(offset_x, x), add_units(offset_y, y)));
            i = i + 1;
            proof {
                let st_post = spec_positions(
                    children@,
                    self.direction,
                    prim,
                    sec,
                    self.spacing as int,
                    inner_bounds@,
                    i as int,
                );
                assert(st_post.positions == st_pre.positions.push(
                    (st_post.positions[st_pre.positions.len() as int].0,
                    st_post.positions[st_pre.positions.len() as int].1),
                ));
            }
        }
        out
    }

    // Walks the children in resolution order to get the accumulated space
    // needed for the final calculation.
    fn calculate_accumulation(
        &self,
        sorted_indices: &Vec<usize>,
        inner_bounds: &Rect,
        children: &Vec<Element>,
    ) -> (r: (Vec<i64>, Vec<i64>, i64, i64))
        requires
            children@.len() >= 1,
            forall|j: int|
                0 <= j < sorted_indices@.len() ==> (#[trigger] sorted_indices@[j])
                    < children@.len(),
        ensures
            ({
                let st = spec_accum(
                    children@,
                    self.direction,
                    unit_sub(
                        pick_primary(self.direction, inner_bounds@.width, inner_bounds@.height),
                        unit_scale(children@.len() - 1, self.spacing as int),
                    ),
                    pick_secondary(self.direction, inner_bounds@.width, inner_bounds@.height),
                    inner_bounds@,
                    sorted_indices@.map_values(|u: usize| u as int),
                    sorted_indices@.len() as int,
                );
                &&& r.0@.len() == children@.len()
                &&& r.1@.len() == children@.len()
                &&& forall|j: int|
                    0 <= j < children@.len() ==> (#[trigger] r.0@[j]) as int == st.primary[j]
                &&& forall|j: int|
                    0 <= j < children@.len() ==> (#[trigger] r.1@[j]) as int == st.secondary[j]
                &&& r.2 as int == st.primary_sum
                &&& r.3 as int == st.secondary_max
            }),
        decreases element_seq_size(children@), 4int, 0int,
    {
        let ghost order = sorted_indices@.map_values(|u: usize| u as int);
        let n = children.len();

        let mut primary_intrinsic: i64 = 0;
        let mut primary_accumulation: Vec<i64> = Vec::new();

        let mut secondary_intrinsic: i64 = 0;
        let mut secondary_accumulation: Vec<i64> = Vec::new();

        let mut z: usize = 0;
        while z < n
            invariant
                z <= n,
                n == children@.len(),
                primary_accumulation@.len() == z,
                secondary_accumulation@.len() == z,
                forall|j: int| 0 <= j < z ==> (#[trigger] primary_accumulation@[j]) == 0i64,
                forall|j: int| 0 <= j < z ==> (#[trigger] secondary_accumulation@[j]) == 0i64,
            decreases n - z,
        {
            primary_accumulation.push(0);
            secondary_accumulation.push(0);
            z = z + 1;
        }

        let (width, height, _, _) = inner_bounds.as_tuple();
        let (available_base, available_secondary) = self.direction.swap(width, height);

        // Occupy spacing between children.
        let available_primary = sub_units(available_base, scale_units(n - 1, self.spacing));

        let ghost ap = available_primary as int;
        let ghost asec = available_secondary as int;

        let mut j: usize = 0;
        while j < sorted_indices.len()
            invariant
                j <= sorted_indices@.len(),
                n == children@.len(),
                n >= 1,
                order == sorted_indices@.map_values(|u: usize| u as int),
                forall|q: int|
                    0 <= q < sorted_indices@.len() ==> (#[trigger] sorted_indices@[q])
                        < children@.len(),
                ap == unit_sub(
                    pick_primary(self.direction, inner_bounds@.width, inner_bounds@.height),
                    unit_scale(children@.len() - 1, self.spacing as int),
                ),
                asec == pick_secondary(self.direction, inner_bounds@.width, inner_bounds@.height),
                available_primary as int == ap,
                available_secondary as int == asec,
                primary_accumulation@.len() == n,
                secondary_accumulation@.len() == n,
                ({
                    let st = spec_accum(
                        children@,
                        self.direction,
                        ap,
                        asec,
                        inner_bounds@,
                        order,
                        j as int,
                    );
                    &&& primary_intrinsic as int == st.primary_sum
                    &&& secondary_intrinsic as int == st.secondary_max
                    &&& forall|q: int|
                        0 <= q < n ==> (#[trigger] primary_accumulation@[q]) as int
                            == st.primary[q]
                    &&& forall|q: int|
                        0 <= q < n ==> (#[trigger] secondary_accumulation@[q]) as int
                            == st.secondary[q]
                }),
            decreases sorted_indices@.len() - j,
        {
            let ghost st_pre = spec_accum(
                children@,
                self.direction,
                ap,
                asec,
                inner_bounds@,
                order,
                j as int,
            );
            proof {
                lemma_accum_lens(
                    children@,
                    self.direction,
                    ap,
                    asec,
                    inner_bounds@,
                    order,
                    j as int,
                );
            }
            let index = sorted_indices[j];
            proof {
                assert(order[j as int] == sorted_indices@[j as int] as int);
            }
            let child = &children[index];
            let child_sizing = child.sizing();

            // Get the primary (directional) unit here.
            let (primary_unit, secondary_unit) = self.direction.swap(
                &child_sizing.width,
                &child_sizing.height,
            );

            proof {
                lemma_element_seq_size(children@, index as int);
            }

            let measured = match primary_unit {
                SizingUnit::Stretch(_) => {
                    let available = sub_units(available_primary, primary_intrinsic);
                    let (w, h) = self.direction.swap(available, available_secondary);
                    let synthetic = Rect::new(w, h, 0, 0);

                    child.calculate(synthetic, synthetic)
                },
                _ => {
                    // Inner bounds is used for both designated and outer,
                    // because designated space is not known at this time.
                    child.calculate(*inner_bounds, *inner_bounds)
                },
            };

            let (calculated_width, calculated_height) = measured.rect.dimensions.to_tuple();

            let (primary, secondary) = self.direction.swap(calculated_width, calculated_height);

            let ghost pre_pa = primary_accumulation@;
            let ghost pre_sa = secondary_accumulation@;
            primary_accumulation[index] = primary;
            primary_intrinsic = add_units(primary_intrinsic, primary);

            secondary_accumulation[index] = secondary;

            // Accumulate intrinsic only for collapse, fixed and percent
            // secondaries, so stretching secondaries can stretch based on
            // that without feeding back into it.
            match secondary_unit {
                SizingUnit::Stretch(_) => {},
                _ => {
                    secondary_intrinsic = max_units(secondary_intrinsic, secondary);
                },
            }

            j = j + 1;
            proof {
                let st_post = spec_accum(
                    children@,
                    self.direction,
                    ap,
                    asec,
                    inner_bounds@,
                    order,
                    j as int,
                );
                assert(st_post.primary == st_pre.primary.update(
                    index as int,
                    primary as int,
                ));
                assert(st_post.secondary == st_pre.secondary.update(
                    index as int,
                    secondary as int,
                ));
                assert(primary_intrinsic as int == st_post.primary_sum);
                assert(secondary_intrinsic as int == st_post.secondary_max);
                assert(primary_accumulation@ == pre_pa.update(index as int, primary));
                assert(secondary_accumulation@ == pre_sa.update(index as int, secondary));
                assert forall|q: int| 0 <= q < children@.len() implies (
                #[trigger] primary_accumulation@[q]) as int == st_post.primary[q] by {
                    if q == index as int {
                        assert(primary_accumulation@[q] == primary);
                    } else {
                        assert(primary_accumulation@[q] == pre_pa[q]);
                        assert(pre_pa[q] as int == st_pre.primary[q]);
                    }
                }
                assert forall|q: int| 0 <= q < children@.len() implies (
                #[trigger] secondary_accumulation@[q]) as int == st_post.secondary[q] by {
                    if q == index as int {
                        assert(secondary_accumulation@[q] == secondary);
                    } else {
                        assert(secondary_accumulation@[q] == pre_sa[q]);
                        assert(pre_sa[q] as int == st_pre.secondary[q]);
                    }
                }
            }
        }

        (
            primary_accumulation,
            secondary_accumulation,
            primary_intrinsic,
            secondary_intrinsic,
        )
    }

    /// The full two-pass layout of a container with children: a provisional
    /// box from zero intrinsics, a measuring pass inside it, the corrected
    /// box from what the children claimed, a second measuring pass inside
    /// that, then positions, and one final recursion per child against its
    /// designated rectangle.
    fn calculate_childful(&self, element: &Element, designated_bounds: Rect, outer_bounds: Rect)
        -> (r: CalculatedElement)
        requires
            element.children@.len() >= 1,
        ensures
            r@ == spec_directional(
                self.direction,
                self.spacing as int,
                *element,
                designated_bounds@,
                outer_bounds@,
            ),
        decreases element_size(*element), 1int, 0int,
    {
        let box_bounds = self.calculate_box_bounds(
            element,
            &designated_bounds,
            &outer_bounds,
            0,
            0,
        );

        let inner_bounds = self.calculate_inner_bounds(element, &box_bounds);
        let sorted_indices = self.sort_primary_indices(element);

        proof {
            lemma_element_children_size(*element);
        }

        let (first_primary, first_secondary, primary_intrinsic, secondary_intrinsic) = self
            .calculate_accumulation(&sorted_indices, &inner_bounds, element.children());

        // Calculate the new box and inner bounds, and measure once more
        // inside them, so the final designations are correct.
        let box_bounds = self.calculate_box_bounds(
            element,
            &designated_bounds,
            &outer_bounds,
            primary_intrinsic,
            secondary_intrinsic,
        );

        let inner_bounds = self.calculate_inner_bounds(element, &box_bounds);

        let (primary_accumulations, secondary_accumulations, _, _) = self.calculate_accumulation(
            &sorted_indices,
            &inner_bounds,
            element.children(),
        );

        let positions = self.calculate_positions(
            &element,
            &primary_accumulations,
            &secondary_accumulations,
            &inner_bounds,
        );

        let ghost cs = element.children@;
        let ghost st2 = spec_accum(
            cs,
            self.direction,
            unit_sub(
                pick_primary(self.direction, inner_bounds@.width, inner_bounds@.height),
                unit_scale(cs.len() - 1, self.spacing as int),
            ),
            pick_secondary(self.direction, inner_bounds@.width, inner_bounds@.height),
            inner_bounds@,
            resolution_order(cs, self.direction),
            resolution_order(cs, self.direction).len() as int,
        );
        let ghost pos_model = spec_positions(
            cs,
            self.direction,
            st2.primary,
            st2.secondary,
            self.spacing as int,
            inner_bounds@,
            cs.len() as int,
        );

        proof {
            lemma_accum_lens(
                cs,
                self.direction,
                unit_sub(
                    pick_primary(self.direction, inner_bounds@.width, inner_bounds@.height),
                    unit_scale(cs.len() - 1, self.spacing as int),
                ),
                pick_secondary(self.direction, inner_bounds@.width, inner_bounds@.height),
                inner_bounds@,
                resolution_order(cs, self.direction),
                resolution_order(cs, self.direction).len() as int,
            );
            assert forall|q: int| 0 <= q < cs.len() implies st2.primary[q]
                == primary_accumulations@.map_values(|v: i64| v as int)[q] by {
                assert(primary_accumulations@.map_values(|v: i64| v as int)[q]
                    == primary_accumulations@[q] as int);
            }
            assert forall|q: int| 0 <= q < cs.len() implies st2.secondary[q]
                == secondary_accumulations@.map_values(|v: i64| v as int)[q] by {
                assert(secondary_accumulations@.map_values(|v: i64| v as int)[q]
                    == secondary_accumulations@[q] as int);
            }
            assert(st2.primary =~= primary_accumulations@.map_values(|v: i64| v as int));
            assert(st2.secondary =~= secondary_accumulations@.map_values(|v: i64| v as int));
            lemma_positions_len(
                cs,
                self.direction,
                st2.primary,
                st2.secondary,
                self.spacing as int,
                inner_bounds@,
                cs.len() as int,
            );
        }

        let children = element.children();
        let mut calculated_children: Vec<CalculatedElement> = Vec::new();

        let mut i: usize = 0;
        while i < children.len()
            invariant
                i <= children@.len(),
                children@ == element.children@,
                cs == element.children@,
                cs.len() >= 1,
                primary_accumulations@.len() == cs.len(),
                secondary_accumulations@.len() == cs.len(),
                positions@.len() == cs.len(),
                st2.primary.len() == cs.len(),
                st2.secondary.len() == cs.len(),
                pos_model.positions.len() == cs.len(),
                forall|q: int|
                    0 <= q < cs.len() ==> (#[trigger] primary_accumulations@[q]) as int
                        == st2.primary[q],
                forall|q: int|
                    0 <= q < cs.len() ==> (#[trigger] secondary_accumulations@[q]) as int
                        == st2.secondary[q],
                forall|q: int|
                    0 <= q < cs.len() ==> ((#[trigger] positions@[q]).0 as int,
                    positions@[q].1 as int) == pos_model.positions[q],
                calculated_children@.len() == i,
                forall|q: int|
                    0 <= q < i ==> (#[trigger] calculated_children@[q])@ == spec_final_children(
                        cs,
                        self.direction,
                        st2.primary,
                        st2.secondary,
                        pos_model.positions,
                        inner_bounds@,
                        i as int,
                    )[q],
            decreases children@.len() - i,
        {
            let ghost fc_pre = spec_final_children(
                cs,
                self.direction,
                st2.primary,
                st2.secondary,
                pos_model.positions,
                inner_bounds@,
                i as int,
            );
            proof {
                lemma_final_children_len(
                    cs,
                    self.direction,
                    st2.primary,
                    st2.secondary,
                    pos_model.positions,
                    inner_bounds@,
                    i as int,
                );
            }
            let child = &children[i];

            let primary = primary_accumulations[i];
            let secondary = secondary_accumulations[i];

            let (outer_width, outer_height) = self.direction.swap(primary, secondary);
            let (x, y) = positions[i];

            proof {
                lemma_element_seq_size(children@, i as int);
            }

            let calculated = child.calculate(
                Rect::new(outer_width, outer_height, x, y),
                inner_bounds,
            );

            calculated_children.push(calculated);
            i = i + 1;
            proof {
                let designated = RectModel {
                    width: pick_primary(
                        self.direction,
                        st2.primary[i - 1],
                        st2.secondary[i - 1],
                    ),
                    height: pick_secondary(
                        self.direction,
                        st2.primary[i - 1],
                        st2.secondary[i - 1],
                    ),
                    x: pos_model.positions[i - 1].0,
                    y: pos_model.positions[i - 1].1,
                };
                let fc_post = spec_final_children(
                    cs,
                    self.direction,
                    st2.primary,
                    st2.secondary,
                    pos_model.positions,
                    inner_bounds@,
                    i as int,
                );
                assert(pos_model.positions[i - 1]
                    == (pos_model.positions[i - 1].0, pos_model.positions[i - 1].1));
                assert(calculated@ == spec_layout(cs[i - 1], designated, inner_bounds@));
                assert(fc_post == fc_pre.push(spec_layout(cs[i - 1], designated, inner_bounds@)));
            }
        }

        let r = CalculatedElement { children: calculated_children, rect: box_bounds };

        proof {
            lemma_final_children_len(
                cs,
                self.direction,
                st2.primary,
                st2.secondary,
                pos_model.positions,
                inner_bounds@,
                cs.len() as int,
            );
            lemma_calc_children_view(r.children@, r.children@.len() as int);
            let m = spec_directional(
                self.direction,
                self.spacing as int,
                *element,
                designated_bounds@,
                outer_bounds@,
            );
            assert(r@.children =~= m.children);
            assert(r@ =~= m);
        }

        r
    }

    /// A childless container reports its sizing of empty content at the
    /// available position.
    fn calculate_childless(&self, element: &Element, available_bounds: Rect, outer_bounds: Rect)
        -> (r: CalculatedElement)
        requires
            element.children@.len() == 0,
        ensures
            r@ == spec_directional(
                self.direction,
                self.spacing as int,
                *element,
                available_bounds@,
                outer_bounds@,
            ),
    {
        let calculated = element.sizing().calculate_without_content(
            available_bounds.dimensions,
            outer_bounds.dimensions,
        );

        let rect = Rect::from_dimensions_and_position(calculated, available_bounds.position);

        let r = CalculatedElement::from_rect(rect);
        proof {
            let m = spec_directional(
                self.direction,
                self.spacing as int,
                *element,
                available_bounds@,
                outer_bounds@,
            );
            assert(r@.children =~= m.children);
            assert(r@ =~= m);
        }
        r
    }

    /// Arranges `element`'s children along this layout's direction; the
    /// result is exactly the directional layout model applied to the node
    /// and its two bounds.
    pub fn calculate(&self, element: &Element, available_bounds: Rect, outer_bounds: Rect) -> (r:
        CalculatedElement)
        ensures
            r@ == spec_directional(
                self.direction,
                self.spacing as int,
                *element,
                available_bounds@,
                outer_bounds@,
            ),
        decreases element_size(*element), 2int, 0int,
    {
        if element.children().len() > 0 {
            return self.calculate_childful(element, available_bounds, outer_bounds);
        }

        self.calculate_childless(element, available_bounds, outer_bounds)
    }
}


} // verus!
