use rust_gui::Direction::{Horizontal, Vertical};
use rust_gui::{ElementBuilder, Rect};

#[test]
fn calculates_childless() {
    let rect = Rect::new(100, 100, 0, 0);

    let a = ElementBuilder::new()
        .directional(Horizontal, 0)
        .sizing("Fixed:50", "Stretch")
        .build();

    let result = a.calculate(rect.clone(), rect);

    assert_eq!(result.rect.dimensions.width, 50);
    assert_eq!(result.rect.dimensions.height, 100);
}

#[test]
fn calculates_collapse() {
    let rect = Rect::new(200, 200, 0, 0);

    let child = ElementBuilder::new()
        .directional(Horizontal, 0)
        .sizing("Fixed:50", "Fixed:50")
        .build();

    let a = ElementBuilder::new()
        .directional(Vertical, 0)
        .sizing("Stretch", "Collapse")
        .children(vec![child])
        .build();

    let result = a.calculate(rect.clone(), rect);

    assert_eq!(result.rect.dimensions.width, 200);
    assert_eq!(result.rect.dimensions.height, 50);
}

#[test]
fn calculates_stretch() {
    let rect = Rect::new(100, 100, 0, 0);

    let element = ElementBuilder::new()
        .directional(Horizontal, 0)
        .sizing("Stretch", "Collapse")
        .children(vec![
            ElementBuilder::new()
                .directional(Horizontal, 0)
                .sizing("Fixed:20", "Stretch")
                .build(),
            ElementBuilder::new()
                .directional(Horizontal, 0)
                .sizing("Fixed:20", "Fixed:30")
                .build(),
            ElementBuilder::new()
                .directional(Horizontal, 0)
                .sizing("Stretch", "Stretch")
                .label("stretcher")
                .build(),
            ElementBuilder::new()
                .directional(Horizontal, 0)
                .sizing("Fixed:20", "Stretch")
                .build(),
        ])
        .build();

    let result = element.calculate(rect.clone(), rect);
    let child = &result.children[2];

    println!("{:?}", result.rect);

    assert_eq!(result.rect.dimensions.height, 30);

    // 20 * 3 = 60, so remaining width is 40
    assert_eq!(child.rect.dimensions.width, 40);

    // Child stretches to non-directional space
    assert_eq!(child.rect.dimensions.height, 30);
}

#[test]
fn calculates_padding() {
    let rect = Rect::new(100, 100, 0, 0);

    let element = ElementBuilder::new()
        .directional(Horizontal, 0)
        .sizing("Stretch", "Fixed:50")
        .children(vec![ElementBuilder::new()
            .directional(Horizontal, 0)
            .sizing("Stretch", "Stretch")
            .build()])
        .pad_all(10)
        .build();

    let result = element.calculate(rect.clone(), rect);
    let child = &result.children[0];

    assert_eq!(child.rect.dimensions.height, 50 - (10 * 2));
    assert_eq!(child.rect.dimensions.width, 100 - (10 * 2));
}

#[test]
fn computes_complex_directional_layout() {
    let rect = Rect::new(800, 800, 0, 0);
    let layout = rust_gui::mock::layout::chat_box();

    let result = layout.calculate(rect.clone(), rect.clone());

    println!("nodes: {}", result.nodes());
    assert_eq!(result.nodes(), 4);
    assert_eq!(result.rect.dimensions.height, 45);
}

#[test]
fn it_centers() {
    let a = Rect::new(4, 4, 0, 0);
    let b = rust_gui::Dimensions::new(2, 2);

    let result = a.center(b);

    assert_eq!(result.x, 1);
}
