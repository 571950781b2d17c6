use rust_gui::PaddedDimensions;
use rust_gui::{
    AlignUnit, CalculatedElement, ConstraintUnit, Direction, Dimensions, Element, ElementBuilder,
    ElementKind, Rect, Sizing, SizingUnit, TextLayoutElement,
};

fn assert_same_tree(a: &CalculatedElement, b: &CalculatedElement) {
    assert_eq!(a.rect, b.rect);
    assert_eq!(a.children.len(), b.children.len());
    for i in 0..a.children.len() {
        assert_same_tree(&a.children[i], &b.children[i]);
    }
}

#[test]
fn identical_inputs_give_identical_trees() {
    let rect = Rect::new(800, 800, 0, 0);
    let first = rust_gui::mock::layout::chat_box().calculate(rect.clone(), rect.clone());
    let second = rust_gui::mock::layout::chat_box().calculate(rect.clone(), rect.clone());

    assert_same_tree(&first, &second);
}

#[test]
fn percent_clamps_between_its_constraints() {
    let unit = SizingUnit::Percent(800, ConstraintUnit::Fixed(10), ConstraintUnit::Fixed(50));

    // 80% of 200 is 160, above the maximum of 50.
    assert_eq!(unit.calculate(0, 200, 200), 50);

    let unit = SizingUnit::Percent(10, ConstraintUnit::Fixed(10), ConstraintUnit::Fixed(50));

    // 1% of 200 is 2, below the minimum of 10.
    assert_eq!(unit.calculate(0, 200, 200), 10);
}

#[test]
fn percent_child_takes_its_share_of_the_parent() {
    let rect = Rect::new(100, 40, 0, 0);

    let element = ElementBuilder::new()
        .directional(Direction::Horizontal, 0)
        .sizing("Stretch", "Stretch")
        .children(vec![ElementBuilder::new()
            .directional(Direction::Horizontal, 0)
            .sizing("Percent:0.5,_,_", "Stretch")
            .build()])
        .build();

    let result = element.calculate(rect.clone(), rect);

    assert_eq!(result.children[0].rect.dimensions.width, 50);
    assert_eq!(result.children[0].rect.dimensions.height, 40);
}

#[test]
fn alignment_groups_get_their_offsets() {
    let rect = Rect::new(100, 10, 0, 0);

    let element = ElementBuilder::new()
        .directional(Direction::Horizontal, 0)
        .sizing("Stretch", "Stretch")
        .children(vec![
            ElementBuilder::new()
                .directional(Direction::Horizontal, 0)
                .sizing("Fixed:10", "Stretch")
                .build(),
            ElementBuilder::new()
                .directional(Direction::Horizontal, 0)
                .sizing("Fixed:10", "Stretch")
                .align(AlignUnit::Middle, AlignUnit::Start)
                .build(),
            ElementBuilder::new()
                .directional(Direction::Horizontal, 0)
                .sizing("Fixed:10", "Stretch")
                .align(AlignUnit::End, AlignUnit::Start)
                .build(),
        ])
        .build();

    let result = element.calculate(rect.clone(), rect);

    // Start pins at zero, middle centers at 50 - 5, end fills backward.
    assert_eq!(result.children[0].rect.position.x, 0);
    assert_eq!(result.children[1].rect.position.x, 45);
    assert_eq!(result.children[2].rect.position.x, 90);
}

#[test]
fn reordering_keeps_fixed_sizes() {
    let rect = Rect::new(100, 30, 0, 0);

    let build = |order: [i64; 2]| {
        let mut children = Vec::new();
        for width in order {
            let child = if width < 0 {
                ElementBuilder::new()
                    .directional(Direction::Horizontal, 0)
                    .sizing("Stretch", "Stretch")
                    .label("stretcher")
                    .build()
            } else {
                ElementBuilder::new()
                    .directional(Direction::Horizontal, 0)
                    .sizing("Fixed:20", "Stretch")
                    .build()
            };
            children.push(child);
        }
        ElementBuilder::new()
            .directional(Direction::Horizontal, 0)
            .sizing("Stretch", "Stretch")
            .children(children)
            .build()
    };

    let forward = build([20, -1]).calculate(rect.clone(), rect.clone());
    let backward = build([-1, 20]).calculate(rect.clone(), rect.clone());

    // The fixed child keeps its extent at either list position; only the
    // stretch child re-sizes around it.
    assert_eq!(forward.children[0].rect.dimensions.width, 20);
    assert_eq!(backward.children[1].rect.dimensions.width, 20);
    assert_eq!(forward.children[1].rect.dimensions.width, 80);
    assert_eq!(backward.children[0].rect.dimensions.width, 80);
}

#[test]
fn text_wraps_against_the_available_width() {
    let text = TextLayoutElement {
        text: String::from("ab cd"),
        advance: 10,
        line_height: 5,
    };

    let element = Element {
        kind: ElementKind::Extern(text),
        sizing: Sizing::new(
            SizingUnit::Collapse(ConstraintUnit::Unconstrained),
            SizingUnit::Collapse(ConstraintUnit::Unconstrained),
        ),
        padding: rust_gui::Padding::empty(),
        alignment: rust_gui::Alignment::new(AlignUnit::Start, AlignUnit::Start),
        children: Vec::new(),
        label: None,
    };

    // Wide enough: one line of five glyphs.
    let wide = Rect::new(100, 50, 0, 0);
    let result = element.calculate(wide.clone(), wide);
    assert_eq!(result.rect.dimensions.width, 50);
    assert_eq!(result.rect.dimensions.height, 5);

    // Narrow: the second word falls to a second line.
    let narrow = Rect::new(25, 50, 0, 0);
    let result = element.calculate(narrow.clone(), narrow);
    assert_eq!(result.rect.dimensions.width, 20);
    assert_eq!(result.rect.dimensions.height, 10);
}

#[test]
fn dimensions_saturate_instead_of_overflowing() {
    let mut d = Dimensions::new(rust_gui::units::UNIT_LIMIT, 0);
    d.add(rust_gui::units::UNIT_LIMIT, -3);
    assert_eq!(d.width, rust_gui::units::UNIT_LIMIT);
    assert_eq!(d.height, -3);
}

#[test]
fn random_draws_obey_their_bounds() {
    for _ in 0..32 {
        let d = rust_gui::layout::mock::random_dimension(64);
        assert!(0 <= d && d < 64 && d % 5 == 0);
    }

    let mut complexity = 9usize;
    let bounds = Rect::new(60, 60, 0, 0);
    let element = rust_gui::layout::mock::random_directional_list(bounds, &mut complexity);
    assert!(complexity < 9);
    assert_eq!(element.children.len(), 0);
    match element.kind {
        ElementKind::Directional(d) => assert_eq!(d.spacing, 0),
        _ => panic!("expected a directional container"),
    }
}

#[test]
fn mock_page_has_its_shape() {
    let page = rust_gui::mock::layout::test_layout();
    assert_eq!(page.children.len(), 2);
    assert_eq!(page.children[0].children.len(), 6);
    assert_eq!(page.children[1].children.len(), 4);

    let rect = Rect::new(800, 1000, 0, 0);
    let result = page.calculate(rect.clone(), rect.clone());
    println!("{:?}", result.rect);
    assert_eq!(result.rect.dimensions.width, 800);
    assert_eq!(result.rect.dimensions.height, 1000);
    assert_eq!(result.children[0].rect.dimensions.height, 60);
}

#[test]
fn displays_the_result_tree() {
    let rect = Rect::new(100, 100, 0, 0);

    let leaf = ElementBuilder::new()
        .directional(Direction::Horizontal, 0)
        .sizing("Fixed:50", "Stretch")
        .build();

    let result = leaf.calculate(rect.clone(), rect);
    assert_eq!(result.display(), "<width=50 height=100 x=0 y=0/>");

    let negative_leaf = Element {
        kind: ElementKind::Directional(rust_gui::Directional::new(Direction::Horizontal, 0)),
        sizing: Sizing::new(
            SizingUnit::Fixed(-7),
            SizingUnit::Stretch(ConstraintUnit::Unconstrained),
        ),
        padding: rust_gui::Padding::empty(),
        alignment: rust_gui::Alignment::new(AlignUnit::Start, AlignUnit::Start),
        children: Vec::new(),
        label: None,
    };
    let mut builder = ElementBuilder::new().directional(Direction::Horizontal, 0);
    builder.sizing = Sizing::new(
        SizingUnit::Stretch(ConstraintUnit::Unconstrained),
        SizingUnit::Fixed(30),
    );
    let parent = builder.children(vec![negative_leaf]).build();
    let rect = Rect::new(100, 100, 0, 0);
    let result = parent.calculate(rect.clone(), rect);
    assert_eq!(
        result.display(),
        "<width=100 height=30 x=0 y=0>\n  <width=-7 height=30 x=0 y=0/>\n</>"
    );
}

#[test]
fn flattens_to_absolute_rectangles() {
    let rect = Rect::new(100, 50, 0, 0);

    let element = ElementBuilder::new()
        .directional(Direction::Horizontal, 0)
        .sizing("Stretch", "Stretch")
        .pad_all(10)
        .children(vec![ElementBuilder::new()
            .directional(Direction::Horizontal, 0)
            .sizing("Fixed:20", "Stretch")
            .build()])
        .build();

    let result = element.calculate(rect.clone(), rect);
    let flat = result.flatten();

    assert_eq!(flat.len(), 2);
    assert_eq!(flat[0], Rect::new(100, 50, 0, 0));
    // The child's absolute position includes the parent's padding.
    assert_eq!(flat[1], Rect::new(20, 30, 10, 10));
}

#[test]
fn geometry_helpers_compute_their_offsets() {
    let p = rust_gui::Position::new(7, 9).sum(rust_gui::Position::new(3, 1));
    assert_eq!(p, rust_gui::Position::new(10, 10));
    assert_eq!(
        p.relative_to(rust_gui::Position::new(4, 4)),
        rust_gui::Position::new(6, 6)
    );

    let r = Rect::new(100, 80, 0, 0);
    assert_eq!(r.offset(rust_gui::Side::Left, 12), 12);
    assert_eq!(r.offset(rust_gui::Side::Right, 12), 88);
    assert_eq!(r.offset(rust_gui::Side::Bottom, 30), 50);

    let mut d = Dimensions::new(50, 40);
    d.occupy_with_padding(&rust_gui::Padding::new(5, 5, 10, 10));
    assert_eq!(d, Dimensions::new(30, 30));
}

#[test]
fn fixed_accessors_reject_dynamic_units() {
    let fixed = Sizing::new(SizingUnit::Fixed(10), SizingUnit::Fixed(20));
    assert_eq!(fixed.fixed().unwrap(), Dimensions::new(10, 20));
    assert_eq!(fixed.width.fixed().unwrap(), 10);

    let dynamic = Sizing::new(
        SizingUnit::Fixed(10),
        SizingUnit::Stretch(ConstraintUnit::Unconstrained),
    );
    assert!(dynamic.fixed().is_err());
    assert!(dynamic.height.fixed().is_err());

    assert_eq!(
        SizingUnit::Collapse(ConstraintUnit::Fixed(8)).calculate(3, 0, 0),
        8
    );
}
