use super::calculated::{CalcModel, CalculatedElement};
use super::element::{Element, ElementLayout};
use super::rect::{Rect, RectModel};
use crate::units::{add_units, max_units, unit_add, unit_max};
use vstd::prelude::*;

verus! {

/// A leaf measurer that wraps a run of text greedily against the available
/// width. Every glyph is modelled as one fixed horizontal `advance`; a line
/// that overflows restarts after the last breaking character, or carries on
/// when none was seen. This is the engine's own implementation of the
/// pluggable measurement seam; glyph metrics from a real font rasterizer are
/// reduced to the two integer fields before they reach it.
#[derive(Debug)]
pub struct TextLayoutElement {
    pub text: String,
    pub advance: i64,
    pub line_height: i64,
}

/// Characters at which a wrapped line may break.
pub open spec fn spec_is_breaking(c: char) -> bool {
    c == ' ' || c == '\n' || c == '\t' || c == '\r'
}

pub fn is_breaking(c: char) -> (r: bool)
    ensures
        r == spec_is_breaking(c),
{
    c == ' ' || c == '\n' || c == '\t' || c == '\r'
}

/// The cursor of a wrapping scan: the next character `i`, the resume point
/// `bp` after the last breaking character (zero when none is armed), the
/// index `barrier` before which no new breakpoint can arise again, and the
/// running line width `x`, line top `y` and widest line seen `xmax`.
pub struct TextScanState {
    pub i: int,
    pub bp: int,
    pub barrier: int,
    pub x: int,
    pub y: int,
    pub xmax: int,
}

pub open spec fn scan_wf(s: Seq<char>, st: TextScanState) -> bool {
    &&& 0 <= st.i
    &&& 0 <= st.barrier <= st.i + 1
    &&& st.barrier <= s.len() + 1
    &&& (st.bp == 0 || (st.barrier <= st.bp && st.bp <= st.i + 1 && st.bp <= s.len()))
}

pub open spec fn scan_rank(s: Seq<char>, st: TextScanState) -> int {
    s.len() + 1 - (if st.bp > 0 {
        st.bp
    } else {
        st.barrier
    })
}

pub open spec fn scan_start() -> TextScanState {
    TextScanState { i: 0, bp: 0, barrier: 0, x: 0, y: 0, xmax: 0 }
}

/// Runs the greedy wrap from state `st` to the end of the text and returns
/// the widest line width and the top of the last line.
pub open spec fn text_scan(
    s: Seq<char>,
    advance: int,
    line_height: int,
    max_width: int,
    st: TextScanState,
) -> (int, int)
    decreases scan_rank(s, st), s.len() - st.i,
{
    if !scan_wf(s, st) || st.i >= s.len() {
        (st.xmax, st.y)
    } else {
        let c = s[st.i];
        let bp1 = if spec_is_breaking(c) {
            st.i + 1
        } else {
            st.bp
        };
        let x1 = unit_add(st.x, advance);
        if x1 > max_width {
            let y1 = unit_add(st.y, line_height);
            let xmax1 = unit_max(st.xmax, 0);
            if bp1 > 0 {
                text_scan(
                    s,
                    advance,
                    line_height,
                    max_width,
                    TextScanState { i: bp1, bp: 0, barrier: bp1 + 1, x: 0, y: y1, xmax: xmax1 },
                )
            } else {
                text_scan(
                    s,
                    advance,
                    line_height,
                    max_width,
                    TextScanState {
                        i: st.i + 1,
                        bp: 0,
                        barrier: st.barrier,
                        x: 0,
                        y: y1,
                        xmax: xmax1,
                    },
                )
            }
        } else {
            text_scan(
                s,
                advance,
                line_height,
                max_width,
                TextScanState {
                    i: st.i + 1,
                    bp: bp1,
                    barrier: st.barrier,
                    x: x1,
                    y: st.y,
                    xmax: unit_max(st.xmax, x1),
                },
            )
        }
    }
}

/// The rectangle the wrap settles on: the widest line by the bottom of the
/// last line, placed at the top-left corner of the available rectangle.
pub open spec fn spec_text_measure(
    text: Seq<char>,
    advance: int,
    line_height: int,
    available: RectModel,
) -> RectModel {
    let r = text_scan(text, advance, line_height, available.width, scan_start());
    RectModel {
        width: r.0,
        height: unit_add(r.1, line_height),
        x: available.x,
        y: available.y,
    }
}

impl TextLayoutElement {
    /// The widest line and the top of the last line of the wrapped text.
    pub fn scan(&self, max_width: i64) -> (r: (i64, i64))
        ensures
            (r.0 as int, r.1 as int) == text_scan(
                self.text@,
                self.advance as int,
                self.line_height as int,
                max_width as int,
                scan_start(),
            ),
    {
        let s = self.text.as_str();
        let len = s.unicode_len();
        let mut i: usize = 0;
        let mut bp: usize = 0;
        let ghost mut barrier: int = 0;
        let mut x: i64 = 0;
        let mut y: i64 = 0;
        let mut xmax: i64 = 0;
        while i < len
            invariant
                len == s@.len(),
                s@ == self.text@,
                i <= len,
                bp <= len,
                scan_wf(
                    s@,
                    TextScanState {
                        i: i as int,
                        bp: bp as int,
                        barrier,
                        x: x as int,
                        y: y as int,
                        xmax: xmax as int,
                    },
                ),
                text_scan(
                    s@,
                    self.advance as int,
                    self.line_height as int,
                    max_width as int,
                    TextScanState {
                        i: i as int,
                        bp: bp as int,
                        barrier,
                        x: x as int,
                        y: y as int,
                        xmax: xmax as int,
                    },
                ) == text_scan(
                    s@,
                    self.advance as int,
                    self.line_height as int,
                    max_width as int,
                    scan_start(),
                ),
            decreases
                    scan_rank(
                        s@,
                        TextScanState {
                            i: i as int,
                            bp: bp as int,
                            barrier,
                            x: x as int,
                            y: y as int,
                            xmax: xmax as int,
                        },
                    ),
                    s@.len() - i,
        {
            let c = s.get_char(i);
            if is_breaking(c) {
                bp = i + 1;
            }
            let x1 = add_units(x, self.advance);
            if x1 > max_width {
                y = add_units(y, self.line_height);
                xmax = max_units(xmax, 0);
                x = 0;
                if bp > 0 {
                    i = bp;
                    bp = 0;
                    proof {
                        barrier = i + 1;
                    }
                } else {
                    i = i + 1;
                }
            } else {
                x = x1;
                xmax = max_units(xmax, x1);
                i = i + 1;
            }
        }
        (xmax, y)
    }
}

impl ElementLayout for TextLayoutElement {
    open spec fn spec_measure(
        &self,
        element: &Element,
        available: RectModel,
        outer: RectModel,
    ) -> CalcModel {
        CalcModel {
            rect: spec_text_measure(
                self.text@,
                self.advance as int,
                self.line_height as int,
                available,
            ),
            children: Seq::empty(),
        }
    }

    fn kind_name(&self) -> (r: String)
        ensures
            r@ == "Text Element"@,
    {
        String::from_str("Text Element")
    }

    fn calculate(&self, element: &Element, available_bounds: Rect, outer_bounds: Rect) -> (r:
        CalculatedElement) {
        let (xmax, y) = self.scan(available_bounds.dimensions.width);
        let rect = Rect::new(
            xmax,
            add_units(y, self.line_height),
            available_bounds.position.x,
            available_bounds.position.y,
        );
        let r = CalculatedElement::from_rect(rect);
        proof {
            let m = self.spec_measure(element, available_bounds@, outer_bounds@);
            assert(r@.children =~= m.children);
            assert(r@.rect =~= m.rect);
            assert(r@ =~= m);
        }
        r
    }
}

} // verus!
