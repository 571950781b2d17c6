use super::dimension::Dimensions;
use super::rect::{Rect, RectModel};
use crate::units::unit_add;
use vstd::prelude::*;

verus! {

/// The output of a layout pass: the final rectangle of one node, together
/// with the results of its children, in the order the input tree gave them.
#[derive(Debug)]
pub struct CalculatedElement {
    pub rect: Rect,
    pub children: Vec<CalculatedElement>,
}

/// The mathematical content of a calculated tree.
#[verifier::ext_equal]
pub struct CalcModel {
    pub rect: RectModel,
    pub children: Seq<CalcModel>,
}

impl View for CalculatedElement {
    type V = CalcModel;

    open spec fn view(&self) -> CalcModel
        decreases *self, 1int, 0int,
    {
        CalcModel {
            rect: self.rect@,
            children: calc_children_view(self.children@, self.children@.len() as int),
        }
    }
}

/// The views of the first `k` elements of a list of calculated trees.
pub open spec fn calc_children_view(s: Seq<CalculatedElement>, k: int) -> Seq<CalcModel>
    decreases s, 0int, k,
{
    if k <= 0 || k > s.len() {
        Seq::empty()
    } else {
        calc_children_view(s, k - 1).push(s[k - 1]@)
    }
}

pub proof fn lemma_calc_children_view(s: Seq<CalculatedElement>, k: int)
    requires
        0 <= k <= s.len(),
    ensures
        calc_children_view(s, k).len() == k,
        forall|i: int| 0 <= i < k ==> #[trigger] calc_children_view(s, k)[i] == s[i]@,
    decreases k,
{
    if k > 0 {
        lemma_calc_children_view(s, k - 1);
        assert(calc_children_view(s, k) == calc_children_view(s, k - 1).push(s[k - 1]@));
    } else {
        assert(calc_children_view(s, k) == Seq::<CalcModel>::empty());
    }
}

/// The number of nodes in a calculated tree.
pub open spec fn spec_nodes(m: CalcModel) -> nat
    decreases m.children,
{
    1 + spec_nodes_seq(m.children, m.children.len() as int)
}

pub open spec fn spec_nodes_seq(s: Seq<CalcModel>, k: int) -> nat
    decreases s, k,
{
    if k <= 0 || k > s.len() {
        0
    } else {
        spec_nodes_seq(s, k - 1) + spec_nodes(s[k - 1])
    }
}

pub proof fn lemma_nodes_seq_covers(s: Seq<CalcModel>, i: int, k: int)
    requires
        0 <= i < k <= s.len(),
    ensures
        spec_nodes(s[i]) <= spec_nodes_seq(s, k),
    decreases k,
{
    if i < k - 1 {
        lemma_nodes_seq_covers(s, i, k - 1);
    }
}

impl CalculatedElement {
    pub fn empty(dimensions: Dimensions) -> (r: CalculatedElement)
        ensures
            r@.rect == (RectModel {
                width: dimensions.width as int,
                height: dimensions.height as int,
                x: 0,
                y: 0,
            }),
            r@.children.len() == 0,
    {
        CalculatedElement { rect: Rect::from_dimensions(dimensions), children: Vec::new() }
    }

    pub fn from_rect(rect: Rect) -> (r: CalculatedElement)
        ensures
            r@.rect == rect@,
            r@.children.len() == 0,
    {
        CalculatedElement { rect, children: Vec::new() }
    }

    /// How many nodes this tree holds, the node itself included; pinned at
    /// the machine maximum for trees too large to count in a `usize`.
    pub fn nodes(&self) -> (r: usize)
        ensures
            r as nat == if spec_nodes(self@) <= usize::MAX as nat {
                spec_nodes(self@)
            } else {
                usize::MAX as nat
            },
        decreases spec_nodes(self@),
    {
        proof {
            lemma_calc_children_view(self.children@, self.children@.len() as int);
        }
        let mut total: usize = 1;
        let mut i: usize = 0;
        while i < self.children.len()
            invariant
                i <= self.children@.len(),
                self@.children.len() == self.children@.len(),
                forall|j: int|
                    0 <= j < self.children@.len() ==> #[trigger] self@.children[j]
                        == self.children@[j]@,
                total as nat == if 1 + spec_nodes_seq(self@.children, i as int) <= usize::MAX as nat {
                    1 + spec_nodes_seq(self@.children, i as int)
                } else {
                    usize::MAX as nat
                },
            decreases self.children@.len() - i,
        {
            proof {
                lemma_nodes_seq_covers(self@.children, i as int, self@.children.len() as int);
            }
            let c = self.children[i].nodes();
            if total > usize::MAX - c {
                total = usize::MAX;
            } else {
                total = total + c;
            }
            i = i + 1;
        }
        total
    }
}


/// The decimal digit characters of `n`, most significant first.
pub open spec fn spec_nat_string(n: int) -> Seq<char>
    decreases n,
{
    if n < 0 {
        Seq::empty()
    } else if n < 10 {
        seq![spec_digit_char(n)]
    } else {
        spec_nat_string(n / 10).push(spec_digit_char(n % 10))
    }
}

pub open spec fn spec_digit_char(d: int) -> char {
    if d == 0 {
        '0'
    } else if d == 1 {
        '1'
    } else if d == 2 {
        '2'
    } else if d == 3 {
        '3'
    } else if d == 4 {
        '4'
    } else if d == 5 {
        '5'
    } else if d == 6 {
        '6'
    } else if d == 7 {
        '7'
    } else if d == 8 {
        '8'
    } else {
        '9'
    }
}

/// The decimal rendering of a signed unit value.
pub open spec fn spec_unit_string(v: int) -> Seq<char> {
    if v < 0 {
        seq!['-'] + spec_nat_string(-v)
    } else {
        spec_nat_string(v)
    }
}

/// Two spaces for every level of depth.
pub open spec fn spec_indent(n: int) -> Seq<char>
    decreases n,
{
    if n <= 0 {
        Seq::empty()
    } else {
        spec_indent(n - 1) + seq![' ', ' ']
    }
}

/// The diagnostic rendering of one node: its rectangle in an opening tag,
/// its children indented one level deeper between it and a closing tag.
pub open spec fn spec_stringify(m: CalcModel, indents: int) -> Seq<char>
    decreases m.children, 1int, 0int,
{
    let head = spec_indent(indents) + "<width="@ + spec_unit_string(m.rect.width) + " height="@
        + spec_unit_string(m.rect.height) + " x="@ + spec_unit_string(m.rect.x) + " y="@
        + spec_unit_string(m.rect.y);
    if m.children.len() == 0 {
        head + "/>"@
    } else {
        head + ">"@ + spec_stringify_children(
            m.children,
            m.children.len() as int,
            spec_next_indent(indents),
        ) + "\n"@ + spec_indent(indents) + "</>"@
    }
}

/// One indentation level deeper, pinned at the machine maximum.
pub open spec fn spec_next_indent(i: int) -> int {
    if i >= usize::MAX as int {
        i
    } else {
        i + 1
    }
}

pub open spec fn spec_stringify_children(s: Seq<CalcModel>, k: int, indents: int) -> Seq<char>
    decreases s, 0int, k,
{
    if k <= 0 || k > s.len() {
        Seq::empty()
    } else {
        spec_stringify_children(s, k - 1, indents) + seq!['\n'] + spec_stringify(
            s[k - 1],
            indents,
        )
    }
}

/// Appends the decimal digits of `n`.
fn append_nat(out: &mut String, n: u64)
    ensures
        final(out)@ == old(out)@ + spec_nat_string(n as int),
    decreases n,
{
    let ghost pre = out@;
    if n >= 10 {
        append_nat(out, n / 10);
    }
    let d = n % 10;
    match d {
        0 => out.append("0"),
        1 => out.append("1"),
        2 => out.append("2"),
        3 => out.append("3"),
        4 => out.append("4"),
        5 => out.append("5"),
        6 => out.append("6"),
        7 => out.append("7"),
        8 => out.append("8"),
        _ => out.append("9"),
    }
    proof {
        reveal_strlit("0");
        reveal_strlit("1");
        reveal_strlit("2");
        reveal_strlit("3");
        reveal_strlit("4");
        reveal_strlit("5");
        reveal_strlit("6");
        reveal_strlit("7");
        reveal_strlit("8");
        reveal_strlit("9");
        assert(out@ =~= pre + spec_nat_string(n as int));
    }
}

/// Appends the decimal rendering of a signed unit value.
fn append_unit(out: &mut String, v: i64)
    ensures
        final(out)@ == old(out)@ + spec_unit_string(v as int),
{
    let ghost pre = out@;
    if v < 0 {
        out.append("-");
        let magnitude = (-(v as i128)) as u64;
        append_nat(out, magnitude);
        proof {
            reveal_strlit("-");
            assert(out@ =~= pre + spec_unit_string(v as int));
        }
    } else {
        append_nat(out, v as u64);
    }
}

/// Appends two spaces per indentation level.
fn append_indent(out: &mut String, indents: usize)
    ensures
        final(out)@ == old(out)@ + spec_indent(indents as int),
{
    let ghost pre = out@;
    let mut i: usize = 0;
    while i < indents
        invariant
            i <= indents,
            out@ == pre + spec_indent(i as int),
        decreases indents - i,
    {
        out.append("  ");
        i = i + 1;
        proof {
            reveal_strlit("  ");
            assert(out@ =~= pre + spec_indent(i as int));
        }
    }
}

impl CalculatedElement {
    /// The diagnostic tree dump of this result, starting at depth zero.
    pub fn display(&self) -> (r: String)
        ensures
            r@ == spec_stringify(self@, 0),
    {
        self.stringify(0)
    }

    fn stringify(&self, indents: usize) -> (r: String)
        ensures
            r@ == spec_stringify(self@, indents as int),
        decreases spec_nodes(self@), 1int, 0int,
    {
        let mut out = String::new();
        append_indent(&mut out, indents);
        out.append("<width=");
        append_unit(&mut out, self.rect.dimensions.width);
        out.append(" height=");
        append_unit(&mut out, self.rect.dimensions.height);
        out.append(" x=");
        append_unit(&mut out, self.rect.position.x);
        out.append(" y=");
        append_unit(&mut out, self.rect.position.y);

        proof {
            lemma_calc_children_view(self.children@, self.children@.len() as int);
        }

        if self.children.len() == 0 {
            out.append("/>");
            proof {
                assert(out@ =~= spec_stringify(self@, indents as int));
            }
            out
        } else {
            out.append(">");
            let next = if indents < usize::MAX {
                indents + 1
            } else {
                indents
            };
            let mut i: usize = 0;
            while i < self.children.len()
                invariant
                    i <= self.children@.len(),
                    next as int == spec_next_indent(indents as int),
                    self@.children.len() == self.children@.len(),
                    forall|j: int|
                        0 <= j < self.children@.len() ==> #[trigger] self@.children[j]
                            == self.children@[j]@,
                    out@ == spec_indent(indents as int) + "<width="@ + spec_unit_string(
                        self@.rect.width,
                    ) + " height="@ + spec_unit_string(self@.rect.height) + " x="@
                        + spec_unit_string(self@.rect.x) + " y="@ + spec_unit_string(
                        self@.rect.y,
                    ) + ">"@ + spec_stringify_children(self@.children, i as int, next as int),
                decreases self.children@.len() - i,
            {
                proof {
                    lemma_nodes_seq_covers(
                        self@.children,
                        i as int,
                        self@.children.len() as int,
                    );
                }
                out.append("\n");
                let part = self.children[i].stringify(next);
                out.append(part.as_str());
                i = i + 1;
                proof {
                    reveal_strlit("\n");
                    assert(out@ =~= spec_indent(indents as int) + "<width="@ + spec_unit_string(
                        self@.rect.width,
                    ) + " height="@ + spec_unit_string(self@.rect.height) + " x="@
                        + spec_unit_string(self@.rect.x) + " y="@ + spec_unit_string(
                        self@.rect.y,
                    ) + ">"@ + spec_stringify_children(self@.children, i as int, next as int));
                }
            }
            out.append("\n");
            append_indent(&mut out, indents);
            out.append("</>");
            proof {
                reveal_strlit("\n");
                assert(out@ =~= spec_stringify(self@, indents as int));
            }
            out
        }
    }
}


/// The rectangles of a whole result tree in pre-order, each translated
/// into absolute coordinates by the positions of its ancestors.
pub open spec fn spec_flatten(m: CalcModel, dx: int, dy: int) -> Seq<RectModel>
    decreases m.children, 1int, 0int,
{
    let x = unit_add(dx, m.rect.x);
    let y = unit_add(dy, m.rect.y);
    seq![RectModel { width: m.rect.width, height: m.rect.height, x, y }] + spec_flatten_children(
        m.children,
        m.children.len() as int,
        x,
        y,
    )
}

pub open spec fn spec_flatten_children(s: Seq<CalcModel>, k: int, dx: int, dy: int) -> Seq<
    RectModel,
>
    decreases s, 0int, k,
{
    if k <= 0 || k > s.len() {
        Seq::empty()
    } else {
        spec_flatten_children(s, k - 1, dx, dy) + spec_flatten(s[k - 1], dx, dy)
    }
}

impl CalculatedElement {
    /// All rectangles of this result in drawing order, with absolute
    /// positions, for consumers that only need to emit one draw call per
    /// node without walking the tree themselves.
    pub fn flatten(&self) -> (r: Vec<Rect>)
        ensures
            r@.len() == spec_flatten(self@, 0, 0).len(),
            forall|j: int|
                0 <= j < r@.len() ==> (#[trigger] r@[j])@ == spec_flatten(self@, 0, 0)[j],
    {
        let mut out: Vec<Rect> = Vec::new();
        self.flatten_into(0, 0, &mut out);
        proof {
            assert forall|j: int| 0 <= j < out@.len() implies (#[trigger] out@[j])@
                == spec_flatten(self@, 0, 0)[j] by {
                assert(out@[0 + j]@ == spec_flatten(self@, 0, 0)[j]);
            }
        }
        out
    }

    fn flatten_into(&self, dx: i64, dy: i64, out: &mut Vec<Rect>)
        ensures
            final(out)@.len() == old(out)@.len() + spec_flatten(self@, dx as int, dy as int).len(),
            forall|j: int|
                0 <= j < old(out)@.len() ==> (#[trigger] final(out)@[j]) == old(out)@[j],
            forall|j: int|
                0 <= j < spec_flatten(self@, dx as int, dy as int).len()
                    ==> (#[trigger] final(out)@[old(out)@.len() + j])@
                    == spec_flatten(self@, dx as int, dy as int)[j],
        decreases spec_nodes(self@), 1int, 0int,
    {
        let ghost pre = out@;
        let ghost flat = spec_flatten(self@, dx as int, dy as int);
        let x = crate::units::add_units(dx, self.rect.position.x);
        let y = crate::units::add_units(dy, self.rect.position.y);
        out.push(
            Rect::new(self.rect.dimensions.width, self.rect.dimensions.height, x, y),
        );

        proof {
            lemma_calc_children_view(self.children@, self.children@.len() as int);
        }

        let mut i: usize = 0;
        while i < self.children.len()
            invariant
                i <= self.children@.len(),
                self@.children.len() == self.children@.len(),
                flat == spec_flatten(self@, dx as int, dy as int),
                x as int == unit_add(dx as int, self@.rect.x),
                y as int == unit_add(dy as int, self@.rect.y),
                forall|j: int|
                    0 <= j < self.children@.len() ==> #[trigger] self@.children[j]
                        == self.children@[j]@,
                out@.len() == pre.len() + 1 + spec_flatten_children(
                    self@.children,
                    i as int,
                    x as int,
                    y as int,
                ).len(),
                forall|j: int| 0 <= j < pre.len() ==> (#[trigger] out@[j]) == pre[j],
                out@[pre.len() as int]@ == (RectModel {
                    width: self@.rect.width,
                    height: self@.rect.height,
                    x: x as int,
                    y: y as int,
                }),
                forall|j: int|
                    0 <= j < spec_flatten_children(
                        self@.children,
                        i as int,
                        x as int,
                        y as int,
                    ).len() ==> (#[trigger] out@[pre.len() + 1 + j])@ == spec_flatten_children(
                        self@.children,
                        i as int,
                        x as int,
                        y as int,
                    )[j],
            decreases self.children@.len() - i,
        {
            proof {
                lemma_nodes_seq_covers(self@.children, i as int, self@.children.len() as int);
            }
            let ghost out_pre = out@;
            let ghost sfc_pre = spec_flatten_children(
                self@.children,
                i as int,
                x as int,
                y as int,
            );
            self.children[i].flatten_into(x, y, out);
            i = i + 1;
            proof {
                let childflat = spec_flatten(self@.children[i - 1], x as int, y as int);
                let sfc_new = spec_flatten_children(
                    self@.children,
                    i as int,
                    x as int,
                    y as int,
                );
                assert(sfc_new == sfc_pre + childflat);
                assert forall|j: int| 0 <= j < sfc_new.len() implies (#[trigger] out@[pre.len() + 1
                    + j])@ == sfc_new[j] by {
                    if j < sfc_pre.len() {
                        assert(out@[pre.len() + 1 + j] == out_pre[pre.len() + 1 + j]);
                        assert(out_pre[pre.len() + 1 + j]@ == sfc_pre[j]);
                    } else {
                        assert(out@[out_pre.len() + (j - sfc_pre.len())]@ == childflat[j
                            - sfc_pre.len()]);
                    }
                }
            }
        }
        proof {
            let ux = unit_add(dx as int, self@.rect.x);
            let uy = unit_add(dy as int, self@.rect.y);
            let tail = spec_flatten_children(self@.children, self@.children.len() as int, ux, uy);
            assert(flat == seq![
                RectModel { width: self@.rect.width, height: self@.rect.height, x: ux, y: uy },
            ] + tail);
            assert(flat.len() == 1 + tail.len());
            assert forall|j: int| 0 <= j < flat.len() implies (#[trigger] out@[pre.len() + j])@
                == flat[j] by {
                if j == 0 {
                    assert(flat[0] == (RectModel {
                        width: self@.rect.width,
                        height: self@.rect.height,
                        x: ux,
                        y: uy,
                    }));
                    assert(out@[pre.len() as int]@ == (RectModel {
                        width: self@.rect.width,
                        height: self@.rect.height,
                        x: x as int,
                        y: y as int,
                    }));
                } else {
                    assert(flat[j] == tail[j - 1]);
                    assert(out@[pre.len() + 1 + (j - 1)]@ == spec_flatten_children(
                        self@.children,
                        self@.children.len() as int,
                        x as int,
                        y as int,
                    )[j - 1]);
                }
            }
        }
    }
}

} // verus!
