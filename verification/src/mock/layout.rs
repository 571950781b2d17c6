use crate::layout::alignment::{AlignUnit, Alignment};
use crate::layout::common::{Direction, Sizing, SizingUnit};
use crate::layout::constraints::ConstraintUnit;
use crate::layout::directional::Directional;
use crate::layout::element::{Element, ElementBuilder, ElementKind};
use crate::layout::padding::Padding;
use crate::layout::text::TextLayoutElement;
use crate::mock::random_in_range;
use vstd::prelude::*;

verus! {

pub const LOREM_IPSUM: &'static str = "Suspendisse placerat lectus ultrices ipsum consectetur, et vestibulum augue luctus. Proin condimentum laoreet lacus volutpat accumsan. Aliquam commodo nulla eu elit porta, ac interdum nunc dictum. Maecenas et dui vel turpis feugiat ultrices sit amet ut augue. Vivamus enim orci, eleifend sit amet libero ut, blandit tristique orci. Donec iaculis iaculis ante, at accumsan enim congue vitae. Vivamus nec dapibus quam. Nulla lectus purus, fringilla sed eros et, hendrerit cursus sem. Integer euismod tellus turpis, at sagittis eros cursus vitae. Nulla facilisi. Ut id orci a nisl finibus tristique eu nec dui. Vestibulum vestibulum nunc quis varius blandit. Integer at erat non dolor pellentesque blandit nec vitae lorem. Praesent bibendum erat imperdiet pretium feugiat.";

/// A builder for a directional node with the given gap and sizing, ready
/// for further chaining.
fn node(direction: Direction, spacing: i64, width: SizingUnit, height: SizingUnit) -> (r:
    ElementBuilder)
    ensures
        r.kind == ElementKind::Directional(Directional { direction, spacing }),
        r.sizing == (Sizing { width, height }),
        r.padding == (Padding { top: 0, bottom: 0, left: 0, right: 0 }),
        r.alignment == (Alignment { horizontal: AlignUnit::Start, vertical: AlignUnit::Start }),
        r.children@.len() == 0,
        r.label is None,
{
    let mut b = ElementBuilder::new().directional(direction, spacing);
    b.sizing = Sizing::new(width, height);
    b
}

fn stretch() -> (r: SizingUnit)
    ensures
        r == SizingUnit::Stretch(ConstraintUnit::Unconstrained),
{
    SizingUnit::Stretch(ConstraintUnit::Unconstrained)
}

fn collapse() -> (r: SizingUnit)
    ensures
        r == SizingUnit::Collapse(ConstraintUnit::Unconstrained),
{
    SizingUnit::Collapse(ConstraintUnit::Unconstrained)
}

/// The top bar of the mock page: six fixed-width boxes spread over the
/// three alignment groups inside a stretched, sixty-unit-tall strip.
pub fn header() -> (r: Element)
    ensures
        r.kind == ElementKind::Directional(
            Directional { direction: Direction::Horizontal, spacing: 16 },
        ),
        r.sizing == (Sizing {
            width: SizingUnit::Stretch(ConstraintUnit::Unconstrained),
            height: SizingUnit::Fixed(60),
        }),
        r.padding == (Padding { top: 16, bottom: 16, left: 16, right: 16 }),
        r.children@.len() == 6,
{
    node(Direction::Horizontal, 16, stretch(), SizingUnit::Fixed(60))
        .label("header")
        .children(
            vec![
                node(Direction::Horizontal, 0, SizingUnit::Fixed(50), stretch()).build(),
                node(Direction::Horizontal, 0, SizingUnit::Fixed(300), stretch()).align(
                    AlignUnit::End,
                    AlignUnit::Start,
                ).build(),
                node(Direction::Horizontal, 0, SizingUnit::Fixed(70), stretch()).build(),
                node(Direction::Horizontal, 0, SizingUnit::Fixed(70), stretch()).align(
                    AlignUnit::Middle,
                    AlignUnit::Start,
                ).build(),
                node(Direction::Horizontal, 0, SizingUnit::Fixed(100), stretch()).align(
                    AlignUnit::Middle,
                    AlignUnit::Start,
                ).build(),
                node(Direction::Horizontal, 0, SizingUnit::Fixed(80), stretch()).build(),
            ],
        )
        .pad_all(16)
        .build()
}

/// A narrow rail of seven square entries.
fn server_sidebar() -> (r: Element)
    ensures
        r.kind == ElementKind::Directional(
            Directional { direction: Direction::Vertical, spacing: 16 },
        ),
        r.children@.len() == 7,
{
    let mut children: Vec<Element> = Vec::new();
    let mut i: usize = 0;
    while i < 7
        invariant
            children@.len() == i,
            i <= 7,
        decreases 7 - i,
    {
        children.push(
            node(Direction::Horizontal, 0, SizingUnit::Fixed(40), SizingUnit::Fixed(40)).build(),
        );
        i = i + 1;
    }

    node(Direction::Vertical, 16, collapse(), stretch())
        .children(children)
        .pad_all(16)
        .label("server_sidebar")
        .build()
}

/// The fixed-width member list: seven user rows.
pub fn user_sidebar() -> (r: Element)
    ensures
        r.kind == ElementKind::Directional(
            Directional { direction: Direction::Vertical, spacing: 12 },
        ),
        r.sizing == (Sizing {
            width: SizingUnit::Fixed(240),
            height: SizingUnit::Stretch(ConstraintUnit::Unconstrained),
        }),
        r.children@.len() == 7,
{
    node(Direction::Vertical, 12, SizingUnit::Fixed(240), stretch())
        .label("sidebar")
        .pad_all(16)
        .children(vec![user(), user(), user(), user(), user(), user(), user()])
        .build()
}

/// One member row: an avatar square beside one or two randomly wide lines.
fn user() -> (r: Element)
    ensures
        r.kind == ElementKind::Directional(
            Directional { direction: Direction::Horizontal, spacing: 8 },
        ),
        r.children@.len() == 2,
{
    let range = random_in_range(1, 3);

    let mut children: Vec<Element> = Vec::new();
    let mut i: i64 = 0;
    while i < range
        invariant
            i <= range <= 2,
        decreases range - i,
    {
        let width = random_in_range(200, 1000);

        children.push(
            node(
                Direction::Horizontal,
                0,
                SizingUnit::Percent(
                    width,
                    ConstraintUnit::Unconstrained,
                    ConstraintUnit::Unconstrained,
                ),
                SizingUnit::Fixed(12),
            ).build(),
        );
        i = i + 1;
    }

    node(Direction::Horizontal, 8, stretch(), collapse())
        .children(
            vec![
                node(Direction::Horizontal, 0, SizingUnit::Fixed(35), SizingUnit::Fixed(35)).build(),
                node(Direction::Vertical, 4, stretch(), collapse()).children(children).align(
                    AlignUnit::Start,
                    AlignUnit::Middle,
                ).build(),
            ],
        )
        .label("user")
        .build()
}

/// A stretched list of between five and eleven channel rows.
fn channel_list() -> (r: Element)
    ensures
        r.kind == ElementKind::Directional(
            Directional { direction: Direction::Vertical, spacing: 12 },
        ),
        5 <= r.children@.len() < 12,
{
    let amount = random_in_range(5, 12);

    let mut children: Vec<Element> = Vec::new();
    let mut i: i64 = 0;
    while i < amount
        invariant
            0 <= i <= amount < 12,
            children@.len() == i,
        decreases amount - i,
    {
        children.push(
            node(Direction::Horizontal, 0, stretch(), SizingUnit::Fixed(33)).build(),
        );
        i = i + 1;
    }

    node(Direction::Vertical, 12, stretch(), stretch())
        .label("messages")
        .pad_all(16)
        .children(children)
        .build()
}

/// The channel column beside the server rail.
fn main_sidebar() -> (r: Element)
    ensures
        r.kind == ElementKind::Directional(
            Directional { direction: Direction::Vertical, spacing: 0 },
        ),
        r.children@.len() == 1,
{
    node(Direction::Vertical, 0, SizingUnit::Fixed(240), stretch())
        .children(vec![channel_list()])
        .build()
}

/// A text leaf over a random prefix of the filler text, measured by the
/// integer-advance wrapper standing for a fourteen-unit font.
fn text_leaf() -> (r: Element)
    ensures
        r.kind matches ElementKind::Extern(_),
        r.children@.len() == 0,
{
    let amount = random_in_range(20, 240);
    let source = LOREM_IPSUM;
    let len = source.unicode_len();
    let take: usize = if (amount as usize) < len {
        amount as usize
    } else {
        len
    };
    let text = source.substring_char(0, take).to_owned();

    Element {
        kind: ElementKind::Extern(
            TextLayoutElement { text, advance: 7, line_height: 16 },
        ),
        sizing: Sizing::new(collapse(), collapse()),
        padding: Padding::empty(),
        alignment: Alignment::new(AlignUnit::Start, AlignUnit::Start),
        children: Vec::new(),
        label: Some("Text".to_owned()),
    }
}

/// One chat message: an avatar square beside two to five wrapped text runs.
fn message() -> (r: Element)
    ensures
        r.kind == ElementKind::Directional(
            Directional { direction: Direction::Horizontal, spacing: 8 },
        ),
        r.children@.len() == 2,
{
    let amount = random_in_range(2, 6);

    let mut children: Vec<Element> = Vec::new();
    let mut i: i64 = 0;
    while i < amount
        invariant
            i <= amount < 6,
        decreases amount - i,
    {
        children.push(text_leaf());
        i = i + 1;
    }

    node(Direction::Horizontal, 8, stretch(), collapse())
        .children(
            vec![
                node(Direction::Horizontal, 0, SizingUnit::Fixed(35), SizingUnit::Fixed(35)).build(),
                node(Direction::Vertical, 4, stretch(), collapse()).children(children).build(),
            ],
        )
        .align(AlignUnit::Start, AlignUnit::End)
        .build()
}

/// The message feed: seven messages in a capped stretch column.
fn messages() -> (r: Element)
    ensures
        r.kind == ElementKind::Directional(
            Directional { direction: Direction::Vertical, spacing: 12 },
        ),
        r.children@.len() == 7,
{
    node(
        Direction::Vertical,
        12,
        SizingUnit::Stretch(ConstraintUnit::Fixed(800)),
        stretch(),
    )
        .label("messages")
        .children(
            vec![
                message(),
                message(),
                message(),
                message(),
                message(),
                message(),
                message(),
            ],
        )
        .align(AlignUnit::Middle, AlignUnit::Start)
        .build()
}

/// The message entry strip: a half-width field, a stretching spacer and a
/// fixed send button.
pub fn chat_box() -> (r: Element)
    ensures
        r.kind == ElementKind::Directional(
            Directional { direction: Direction::Horizontal, spacing: 8 },
        ),
        r.sizing == (Sizing {
            width: SizingUnit::Stretch(ConstraintUnit::Unconstrained),
            height: SizingUnit::Fixed(45),
        }),
        r.padding == (Padding { top: 16, bottom: 16, left: 16, right: 16 }),
        r.children@.len() == 3,
{
    node(Direction::Horizontal, 8, stretch(), SizingUnit::Fixed(45))
        .pad_all(16)
        .children(
            vec![
                node(
                    Direction::Horizontal,
                    0,
                    SizingUnit::Percent(
                        500,
                        ConstraintUnit::Unconstrained,
                        ConstraintUnit::Unconstrained,
                    ),
                    stretch(),
                ).label("percento").build(),
                node(Direction::Horizontal, 0, stretch(), stretch()).build(),
                node(Direction::Horizontal, 0, SizingUnit::Fixed(80), stretch()).build(),
            ],
        )
        .build()
}

/// The middle column: the feed above the entry strip.
pub fn content() -> (r: Element)
    ensures
        r.kind == ElementKind::Directional(
            Directional { direction: Direction::Vertical, spacing: 16 },
        ),
        r.children@.len() == 2,
{
    node(Direction::Vertical, 16, stretch(), stretch())
        .label("content")
        .children(vec![messages(), chat_box()])
        .pad_all(16)
        .build()
}

/// Everything below the header: rail, channels, content and member list.
pub fn body() -> (r: Element)
    ensures
        r.kind == ElementKind::Directional(
            Directional { direction: Direction::Horizontal, spacing: 0 },
        ),
        r.children@.len() == 4,
{
    node(Direction::Horizontal, 0, stretch(), stretch())
        .label("body")
        .children(vec![server_sidebar(), main_sidebar(), content(), user_sidebar()])
        .build()
}

/// The whole mock page: the header above the body.
pub fn test_layout() -> (r: Element)
    ensures
        r.kind == ElementKind::Directional(
            Directional { direction: Direction::Vertical, spacing: 0 },
        ),
        r.children@.len() == 2,
{
    node(Direction::Vertical, 0, stretch(), stretch())
        .label("layout")
        .children(vec![header(), body()])
        .build()
}

} // verus!
