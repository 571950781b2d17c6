use super::alignment::{AlignUnit, Alignment};
use super::calculated::{CalcModel, CalculatedElement};
use super::common::{Direction, Sizing, SizingUnit};
use super::constraints::ConstraintUnit;
use super::directional::Directional;
use super::padding::Padding;
use crate::parsing::{parse_sizing_unit, spec_parse_sizing_unit, SizingParse};
use super::model::spec_layout;
use super::rect::{Rect, RectModel};
use super::text::TextLayoutElement;
use vstd::prelude::*;

verus! {

/// The capability a leaf node may delegate its own measurement to: one
/// operation from the two bounding rectangles to a calculated result, with a
/// specification-level account of that result. Measurers are deterministic
/// and side-effect free by construction.
pub trait ElementLayout {
    /// What the measurer returns, as a function of its inputs alone.
    spec fn spec_measure(&self, element: &Element, available: RectModel, outer: RectModel)
        -> CalcModel;

    fn kind_name(&self) -> (r: String);

    fn calculate(&self, element: &Element, available_bounds: Rect, outer_bounds: Rect) -> (r:
        CalculatedElement)
        ensures
            r@ == self.spec_measure(element, available_bounds@, outer_bounds@),
    ;
}

/// How a node arranges itself and its children: as a directional container,
/// through an external measurer, or not at all.
#[derive(Debug)]
pub enum ElementKind {
    Directional(Directional),
    Extern(TextLayoutElement),
    Empty,
}

/// An immutable tree node: a layout kind, a sizing policy, padding, the
/// node's own alignment within its parent, and an ordered list of children.
#[derive(Debug)]
pub struct Element {
    pub kind: ElementKind,
    pub sizing: Sizing,
    pub padding: Padding,
    pub alignment: Alignment,
    pub children: Vec<Element>,
    pub label: Option<String>,
}

/// The number of nodes in an element tree.
pub open spec fn element_size(e: Element) -> nat
    decreases e,
{
    1 + element_seq_size(e.children@)
}

pub open spec fn element_seq_size(s: Seq<Element>) -> nat
    decreases s,
{
    if s.len() == 0 {
        0
    } else {
        element_size(s[0]) + element_seq_size(s.drop_first())
    }
}

pub proof fn lemma_element_children_size(e: Element)
    ensures
        element_seq_size(e.children@) < element_size(e),
{
}

pub proof fn lemma_element_seq_size(s: Seq<Element>, i: int)
    requires
        0 <= i < s.len(),
    ensures
        element_size(s[i]) <= element_seq_size(s),
        element_size(s[i]) < element_seq_size(s) + 1,
    decreases s,
{
    if i > 0 {
        lemma_element_seq_size(s.drop_first(), i - 1);
    }
}

impl Element {
    pub fn sizing(&self) -> (r: &Sizing)
        ensures
            *r == self.sizing,
    {
        &self.sizing
    }

    pub fn children(&self) -> (r: &Vec<Element>)
        ensures
            *r == self.children,
    {
        &self.children
    }

    pub fn padding(&self) -> (r: &Padding)
        ensures
            *r == self.padding,
    {
        &self.padding
    }

    pub fn label(&self) -> (r: Option<&String>)
        ensures
            match r {
                Some(l) => self.label matches Some(v) && l == v,
                None => self.label is None,
            },
    {
        self.label.as_ref()
    }

    pub fn alignment(&self) -> (r: &Alignment)
        ensures
            *r == self.alignment,
    {
        &self.alignment
    }
}

/// Assembles an `Element` top-down, starting from an empty, collapsed,
/// start-aligned node.
pub struct ElementBuilder {
    pub kind: ElementKind,
    pub sizing: Sizing,
    pub padding: Padding,
    pub alignment: Alignment,
    pub children: Vec<Element>,
    pub label: Option<String>,
}

impl ElementBuilder {
    pub fn new() -> (r: ElementBuilder)
        ensures
            r.kind is Empty,
            r.sizing == (Sizing {
                width: SizingUnit::Collapse(ConstraintUnit::Unconstrained),
                height: SizingUnit::Collapse(ConstraintUnit::Unconstrained),
            }),
            r.padding == (Padding { top: 0, bottom: 0, left: 0, right: 0 }),
            r.alignment == (Alignment { horizontal: AlignUnit::Start, vertical: AlignUnit::Start }),
            r.children@.len() == 0,
            r.label is None,
    {
        ElementBuilder {
            kind: ElementKind::Empty,
            children: Vec::new(),
            padding: Padding::empty(),
            alignment: Alignment::new(AlignUnit::Start, AlignUnit::Start),
            sizing: Sizing {
                width: SizingUnit::Collapse(ConstraintUnit::Unconstrained),
                height: SizingUnit::Collapse(ConstraintUnit::Unconstrained),
            },
            label: None,
        }
    }

    pub fn label(self, label: &str) -> (r: Self)
        ensures
            r.label matches Some(l) && l@ == label@,
            r.kind == self.kind,
            r.sizing == self.sizing,
            r.padding == self.padding,
            r.alignment == self.alignment,
            r.children == self.children,
    {
        let mut b = self;
        b.label = Some(label.to_owned());
        b
    }

    pub fn directional(self, direction: Direction, spacing: i64) -> (r: Self)
        ensures
            r.kind == ElementKind::Directional(Directional { direction, spacing }),
            r.sizing == self.sizing,
            r.padding == self.padding,
            r.alignment == self.alignment,
            r.children == self.children,
            r.label == self.label,
    {
        let mut b = self;
        b.kind = ElementKind::Directional(Directional::new(direction, spacing));
        b
    }

    pub fn align(self, horizontal: AlignUnit, vertical: AlignUnit) -> (r: Self)
        ensures
            r.alignment == (Alignment { horizontal, vertical }),
            r.kind == self.kind,
            r.sizing == self.sizing,
            r.padding == self.padding,
            r.children == self.children,
            r.label == self.label,
    {
        let mut b = self;
        b.alignment = Alignment::new(horizontal, vertical);
        b
    }

    pub fn children(self, children: Vec<Element>) -> (r: Self)
        ensures
            r.children == children,
            r.kind == self.kind,
            r.sizing == self.sizing,
            r.padding == self.padding,
            r.alignment == self.alignment,
            r.label == self.label,
    {
        let mut b = self;
        b.children = children;
        b
    }

    pub fn pad_all(self, value: i64) -> (r: Self)
        ensures
            r.padding == (Padding { top: value, bottom: value, left: value, right: value }),
            r.kind == self.kind,
            r.sizing == self.sizing,
            r.alignment == self.alignment,
            r.children == self.children,
            r.label == self.label,
    {
        let mut b = self;
        b.padding = Padding::new(value, value, value, value);
        b
    }

    /// Sets both sizing axes from their token forms; the tokens must be
    /// well-formed sizing tokens.
    pub fn sizing(self, width: &str, height: &str) -> (r: Self)
        requires
            spec_parse_sizing_unit(width@) matches SizingParse::Value(_),
            spec_parse_sizing_unit(height@) matches SizingParse::Value(_),
        ensures
            ({
                &&& spec_parse_sizing_unit(width@) matches SizingParse::Value(w)
                &&& spec_parse_sizing_unit(height@) matches SizingParse::Value(h)
                &&& r.sizing == (Sizing { width: w, height: h })
            }),
            r.kind == self.kind,
            r.padding == self.padding,
            r.alignment == self.alignment,
            r.children == self.children,
            r.label == self.label,
    {
        let w = match parse_sizing_unit(width) {
            Ok(u) => u,
            Err(_) => {
                proof {
                    assert(false);
                }
                SizingUnit::Fixed(0)
            },
        };
        let h = match parse_sizing_unit(height) {
            Ok(u) => u,
            Err(_) => {
                proof {
                    assert(false);
                }
                SizingUnit::Fixed(0)
            },
        };
        let mut b = self;
        b.sizing = Sizing { width: w, height: h };
        b
    }

    pub fn build(self) -> (r: Element)
        ensures
            r.kind == self.kind,
            r.sizing == self.sizing,
            r.padding == self.padding,
            r.alignment == self.alignment,
            r.children == self.children,
            r.label == self.label,
    {
        Element {
            kind: self.kind,
            label: self.label,
            sizing: self.sizing,
            padding: self.padding,
            children: self.children,
            alignment: self.alignment,
        }
    }
}


impl Element {
    /// Resolves this node, and recursively its whole subtree, against the
    /// rectangle it may occupy and the resolved ancestor box percentages
    /// measure against. The result is exactly the mathematical layout of the
    /// tree: a pure function of the inputs, so identical calls yield
    /// identical results.
    pub fn calculate(&self, available_bounds: Rect, outer_bounds: Rect) -> (r: CalculatedElement)
        ensures
            r@ == spec_layout(*self, available_bounds@, outer_bounds@),
        decreases element_size(*self), 3int, 0int,
    {
        match &self.kind {
            ElementKind::Directional(l) => l.calculate(self, available_bounds, outer_bounds),
            ElementKind::Extern(e) => e.calculate(self, available_bounds, outer_bounds),
            ElementKind::Empty => {
                let r = CalculatedElement::empty(super::dimension::Dimensions::new(0, 0));
                proof {
                    assert(r@.children =~= spec_layout(
                        *self,
                        available_bounds@,
                        outer_bounds@,
                    ).children);
                    assert(r@ =~= spec_layout(*self, available_bounds@, outer_bounds@));
                }
                r
            },
        }
    }
}

} // verus!
