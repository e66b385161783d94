//! Fills of SVG shapes: plain colors and linear or radial gradients.
//! Lengths are held in thousandths of a pixel.
use vstd::prelude::*;
use crate::config::{Color, ColorStop, Direction, Gradient};
use crate::text::Piece;
use crate::figures::un;
use crate::types::GradientType;

verus! {

/// Bound on the coordinates and sizes that fills are computed for.
pub open spec fn paint_bound() -> int {
    0x10_0000_0000_0000
}

/// The pieces of a color's `#rrggbb` text.
pub open spec fn color_pieces(c: Color) -> Seq<Piece> {
    seq![Piece::Lit("#"), Piece::HexByte(c.r), Piece::HexByte(c.g), Piece::HexByte(c.b)]
}

/// The `<stop>` element of a color stop; its offset is written in percent.
pub open spec fn stop_pieces(s: ColorStop) -> Seq<Piece> {
    seq![Piece::Lit("<stop offset=\""), Piece::Units((s.offset * 100) as i128), Piece::Lit("%\" stop-color=\"")]
        + color_pieces(s.color) + seq![Piece::Lit("\"/>\n")]
}

/// The `<stop>` elements of the first `n` color stops.
pub open spec fn stops_pieces(stops: Seq<ColorStop>, n: int) -> Seq<Piece>
    decreases n,
{
    if n <= 0 {
        Seq::empty()
    } else {
        stops_pieces(stops, n - 1) + stop_pieces(stops[n - 1])
    }
}

/// A direction turned by `q` quarter turns (1: a quarter turn, -1: a quarter turn back).
pub open spec fn turned(d: Direction, q: int) -> (int, int) {
    if q == 1 {
        (-d.y as int, d.x as int)
    } else if q == -1 {
        (d.y as int, -d.x as int)
    } else {
        (d.x as int, d.y as int)
    }
}

/// A quarter turn and a quarter turn back give opposite directions, each perpendicular to the
/// original one and as long; no turn keeps the direction.
pub proof fn lemma_turned(d: Direction)
    ensures
        turned(d, 0) == (d.x as int, d.y as int),
        turned(d, -1) == (-turned(d, 1).0, -turned(d, 1).1),
        d.x * turned(d, 1).0 + d.y * turned(d, 1).1 == 0,
        turned(d, 1).0 * turned(d, 1).0 + turned(d, 1).1 * turned(d, 1).1 == d.x * d.x + d.y * d.y,
{
    assert(d.x * (-d.y as int) + d.y * (d.x as int) == 0) by (nonlinear_arith);
    assert((-d.y as int) * (-d.y as int) == d.y * d.y) by (nonlinear_arith);
}

/// `n / d` rounded to the nearest integer, halves away from zero.
pub open spec fn round_div(n: int, d: int) -> int {
    if d < 0 {
        round_div_pos(-n, -d)
    } else {
        round_div_pos(n, d)
    }
}

/// `n / d` rounded to the nearest integer, halves away from zero, for `d > 0`.
pub open spec fn round_div_pos(n: int, d: int) -> int {
    if n >= 0 { (2 * n + d) / (2 * d) } else { -((2 * (-n) + d) / (2 * d)) }
}

/// The end points `(x1, y1, x2, y2)` of a linear gradient over the box `(x, y, width, height)`,
/// in thousandths of a pixel, rounded to whole pixels: the line through the box's center along
/// the direction `(dx, dy)`, from side to side (left and right for directions within an eighth
/// turn of the x axis, top and bottom for those within an eighth turn of the y axis).
pub open spec fn linear_ends(dx: int, dy: int, x: int, y: int, height: int, width: int) -> (int, int, int, int) {
    let cx = x + width / 2;
    let cy = y + height / 2;
    let hw = width / 2;
    let hh = height / 2;
    if dx > 0 && -dx < dy <= dx {
        (round_div(cx - hw, 1000) * 1000, round_div(cy * dx - hh * dy, dx * 1000) * 1000,
            round_div(cx + hw, 1000) * 1000, round_div(cy * dx + hh * dy, dx * 1000) * 1000)
    } else if dy > 0 && -dy <= dx < dy {
        (round_div(cx * dy - hw * dx, dy * 1000) * 1000, round_div(cy - hh, 1000) * 1000,
            round_div(cx * dy + hw * dx, dy * 1000) * 1000, round_div(cy + hh, 1000) * 1000)
    } else if dx < 0 && dx <= dy < -dx {
        (round_div(cx + hw, 1000) * 1000, round_div(cy * dx + hh * dy, dx * 1000) * 1000,
            round_div(cx - hw, 1000) * 1000, round_div(cy * dx - hh * dy, dx * 1000) * 1000)
    } else if dy < 0 && dy < dx <= -dy {
        (round_div(cx * dy + hw * dx, dy * 1000) * 1000, round_div(cy + hh, 1000) * 1000,
            round_div(cx * dy - hw * dx, dy * 1000) * 1000, round_div(cy - hh, 1000) * 1000)
    } else {
        (round_div(cx, 1000) * 1000, round_div(cy, 1000) * 1000, round_div(cx, 1000) * 1000,
            round_div(cy, 1000) * 1000)
    }
}

/// Rounding a quotient does not depend on the signs of both its terms.
proof fn lemma_round_div_neg(n: int, d: int)
    requires
        d != 0,
    ensures
        round_div(-n, -d) == round_div(n, d),
{
}

/// Turning the direction of a linear gradient half a turn reverses it: its end points swap.
/// A gradient pointing left (within an eighth turn of the negative x axis) starts on the right
/// edge of the box and ends on its left edge; one pointing right runs the other way.
pub proof fn lemma_linear_ends_reversed(dx: int, dy: int, x: int, y: int, height: int, width: int)
    ensures
        ({
            let e = linear_ends(dx, dy, x, y, height, width);
            let r = linear_ends(-dx, -dy, x, y, height, width);
            r == (e.2, e.3, e.0, e.1)
        }),
        dx < 0 && dx < dy < -dx ==> {
            let e = linear_ends(dx, dy, x, y, height, width);
            &&& e.0 == round_div(x + 2 * (width / 2), 1000) * 1000
            &&& e.2 == round_div(x, 1000) * 1000
        },
        dx > 0 && -dx < dy < dx ==> {
            let e = linear_ends(dx, dy, x, y, height, width);
            &&& e.0 == round_div(x, 1000) * 1000
            &&& e.2 == round_div(x + 2 * (width / 2), 1000) * 1000
        },
        dy > 0 && -dy < dx < dy ==> {
            let e = linear_ends(dx, dy, x, y, height, width);
            &&& e.1 == round_div(y, 1000) * 1000
            &&& e.3 == round_div(y + 2 * (height / 2), 1000) * 1000
        },
        dy < 0 && dy < dx < -dy ==> {
            let e = linear_ends(dx, dy, x, y, height, width);
            &&& e.1 == round_div(y + 2 * (height / 2), 1000) * 1000
            &&& e.3 == round_div(y, 1000) * 1000
        },
{
    let cx = x + width / 2;
    let cy = y + height / 2;
    let hw = width / 2;
    let hh = height / 2;
    assert(cy * (-dx) + hh * (-dy) == -(cy * dx + hh * dy)) by (nonlinear_arith);
    assert(cy * (-dx) - hh * (-dy) == -(cy * dx - hh * dy)) by (nonlinear_arith);
    assert(cx * (-dy) + hw * (-dx) == -(cx * dy + hw * dx)) by (nonlinear_arith);
    assert(cx * (-dy) - hw * (-dx) == -(cx * dy - hw * dx)) by (nonlinear_arith);
    assert((-dx) * 1000 == -(dx * 1000));
    assert((-dy) * 1000 == -(dy * 1000));
    if dx != 0 {
        lemma_round_div_neg(cy * dx + hh * dy, dx * 1000);
        lemma_round_div_neg(cy * dx - hh * dy, dx * 1000);
    }
    if dy != 0 {
        lemma_round_div_neg(cx * dy + hw * dx, dy * 1000);
        lemma_round_div_neg(cx * dy - hw * dx, dy * 1000);
    }
}

/// The definitions and the fill of a shape painted with an optional gradient or else a color,
/// over the box `(x, y, width, height)`; the gradient's direction is turned by `q` quarter
/// turns more, and `name` is the id given to the gradient.
pub open spec fn paint_pieces(
    gradient: Option<Gradient>,
    color: Color,
    q: int,
    x: int,
    y: int,
    height: int,
    width: int,
    name: Seq<Piece>,
) -> (Seq<Piece>, Seq<Piece>) {
    match gradient {
        None => (Seq::empty(), color_pieces(color)),
        Some(g) => {
            let stops = stops_pieces(g.color_stops@, g.color_stops@.len() as int);
            let fill = seq![Piece::Lit("url(#")] + name + seq![Piece::Lit(")")];
            match g.gradient_type {
                GradientType::Radial => {
                    let cx = x + width / 2;
                    let cy = y + height / 2;
                    let r = (if width > height { width } else { height }) / 2;
                    (seq![Piece::Lit("<radialGradient id=\"")] + name + seq![
                        Piece::Lit("\" gradientUnits=\"userSpaceOnUse\" fx=\""), un(cx), Piece::Lit("\" fy=\""),
                        un(cy), Piece::Lit("\" cx=\""), un(cx), Piece::Lit("\" cy=\""), un(cy),
                        Piece::Lit("\" r=\""), un(r), Piece::Lit("\">\n")] + stops
                        + seq![Piece::Lit("</radialGradient>\n")], fill)
                },
                GradientType::Linear => {
                    let (dx, dy) = turned(g.rotation, q);
                    let (x1, y1, x2, y2) = linear_ends(dx, dy, x, y, height, width);
                    (seq![Piece::Lit("<linearGradient id=\"")] + name + seq![
                        Piece::Lit("\" gradientUnits=\"userSpaceOnUse\" x1=\""), un(x1), Piece::Lit("\" y1=\""),
                        un(y1), Piece::Lit("\" x2=\""), un(x2), Piece::Lit("\" y2=\""), un(y2),
                        Piece::Lit("\">\n")] + stops + seq![Piece::Lit("</linearGradient>\n")], fill)
                },
            }
        },
    }
}

/// `n / d` rounded to the nearest integer, halves away from zero (see `round_div`).
fn round_div_exec(n: i128, d: i128) -> (r: i128)
    requires
        d != 0,
        -0x1_0000_0000_0000_0000_0000_0000 < n < 0x1_0000_0000_0000_0000_0000_0000,
        -0x1_0000_0000_0000_0000_0000 < d < 0x1_0000_0000_0000_0000_0000,
    ensures
        r == round_div(n as int, d as int),
        -0x1_0000_0000_0000_0000_0000_0001 <= r <= 0x1_0000_0000_0000_0000_0000_0001,
{
    let (nn, dd) = if d < 0 { (-n, -d) } else { (n, d) };
    proof {
        let m: int = if nn >= 0 { nn as int } else { -nn };
        let a = 2 * m + dd;
        assert(0 <= a / (2 * dd) <= m + 1) by (nonlinear_arith) requires a == 2 * m + dd, m >= 0, dd >= 1;
    }
    if nn >= 0 { (2 * nn + dd) / (2 * dd) } else { -((2 * (-nn) + dd) / (2 * dd)) }
}

/// The color's `#rrggbb` pieces.
fn color_pieces_exec(c: &Color) -> (v: Vec<Piece>)
    ensures
        v@ == color_pieces(*c),
{
    vec![Piece::Lit("#"), Piece::HexByte(c.r), Piece::HexByte(c.g), Piece::HexByte(c.b)]
}

/// The `<stop>` elements of all color stops.
fn stops_pieces_exec(stops: &Vec<ColorStop>) -> (v: Vec<Piece>)
    requires
        forall|i: int| 0 <= i < stops@.len() ==> stops@[i].offset <= 0xffff_ffff,
    ensures
        v@ == stops_pieces(stops@, stops@.len() as int),
{
    let mut v: Vec<Piece> = Vec::new();
    let mut i: usize = 0;
    while i < stops.len()
        invariant
            i <= stops@.len(),
            v@ == stops_pieces(stops@, i as int),
        decreases stops@.len() - i,
    {
        let s = stops[i];
        let off = (s.offset as i128) * 100;
        let mut head = vec![Piece::Lit("<stop offset=\""), Piece::Units(off), Piece::Lit("%\" stop-color=\"")];
        let mut col = color_pieces_exec(&s.color);
        let mut tail = vec![Piece::Lit("\"/>\n")];
        v.append(&mut head);
        v.append(&mut col);
        v.append(&mut tail);
        assert(v@ =~= stops_pieces(stops@, i + 1));
        i = i + 1;
    }
    v
}

/// Bounds under which a fill's arithmetic stays exact.
pub open spec fn paint_in_bounds(x: int, y: int, height: int, width: int) -> bool {
    -paint_bound() <= x <= paint_bound() && -paint_bound() <= y <= paint_bound()
        && 0 <= height <= paint_bound() && 0 <= width <= paint_bound()
}

/// The rounded end points of a linear gradient (see `linear_ends`).
fn linear_ends_exec(dx: i128, dy: i128, x: i128, y: i128, height: i128, width: i128) -> (r: (i128, i128, i128, i128))
    requires
        paint_in_bounds(x as int, y as int, height as int, width as int),
        -0x1_0000_0000 <= dx <= 0x1_0000_0000,
        -0x1_0000_0000 <= dy <= 0x1_0000_0000,
    ensures
        (r.0 as int, r.1 as int, r.2 as int, r.3 as int) == linear_ends(dx as int, dy as int, x as int, y as int,
            height as int, width as int),
        -0x1_0000_0000_0000_0000_0000_0000_0000 < r.0 < 0x1_0000_0000_0000_0000_0000_0000_0000,
        -0x1_0000_0000_0000_0000_0000_0000_0000 < r.1 < 0x1_0000_0000_0000_0000_0000_0000_0000,
        -0x1_0000_0000_0000_0000_0000_0000_0000 < r.2 < 0x1_0000_0000_0000_0000_0000_0000_0000,
        -0x1_0000_0000_0000_0000_0000_0000_0000 < r.3 < 0x1_0000_0000_0000_0000_0000_0000_0000,
{
    let cx = x + width / 2;
    let cy = y + height / 2;
    let hw = width / 2;
    let hh = height / 2;
    proof {
        assert(-0x100_0000_0000_0000_0000_0000 < cy * dx < 0x100_0000_0000_0000_0000_0000) by (nonlinear_arith)
            requires -0x20_0000_0000_0000 <= cy <= 0x20_0000_0000_0000, -0x1_0000_0000 <= dx <= 0x1_0000_0000;
        assert(-0x100_0000_0000_0000_0000_0000 < hh * dy < 0x100_0000_0000_0000_0000_0000) by (nonlinear_arith)
            requires 0 <= hh <= 0x10_0000_0000_0000, -0x1_0000_0000 <= dy <= 0x1_0000_0000;
        assert(-0x100_0000_0000_0000_0000_0000 < cx * dy < 0x100_0000_0000_0000_0000_0000) by (nonlinear_arith)
            requires -0x20_0000_0000_0000 <= cx <= 0x20_0000_0000_0000, -0x1_0000_0000 <= dy <= 0x1_0000_0000;
        assert(-0x100_0000_0000_0000_0000_0000 < hw * dx < 0x100_0000_0000_0000_0000_0000) by (nonlinear_arith)
            requires 0 <= hw <= 0x10_0000_0000_0000, -0x1_0000_0000 <= dx <= 0x1_0000_0000;
    }
    let (a, b, c, d) = if dx > 0 && -dx < dy && dy <= dx {
        (round_div_exec(cx - hw, 1000), round_div_exec(cy * dx - hh * dy, dx * 1000),
            round_div_exec(cx + hw, 1000), round_div_exec(cy * dx + hh * dy, dx * 1000))
    } else if dy > 0 && -dy <= dx && dx < dy {
        (round_div_exec(cx * dy - hw * dx, dy * 1000), round_div_exec(cy - hh, 1000),
            round_div_exec(cx * dy + hw * dx, dy * 1000), round_div_exec(cy + hh, 1000))
    } else if dx < 0 && dx <= dy && dy < -dx {
        (round_div_exec(cx + hw, 1000), round_div_exec(cy * dx + hh * dy, dx * 1000),
            round_div_exec(cx - hw, 1000), round_div_exec(cy * dx - hh * dy, dx * 1000))
    } else if dy < 0 && dy < dx && dx <= -dy {
        (round_div_exec(cx * dy + hw * dx, dy * 1000), round_div_exec(cy + hh, 1000),
            round_div_exec(cx * dy - hw * dx, dy * 1000), round_div_exec(cy - hh, 1000))
    } else {
        (round_div_exec(cx, 1000), round_div_exec(cy, 1000), round_div_exec(cx, 1000), round_div_exec(cy, 1000))
    };
    (a * 1000, b * 1000, c * 1000, d * 1000)
}

/// The id of a painted layer of the document.
#[derive(Debug, Clone, Copy, PartialEq, Eq, Structural)]
pub enum LayerName {
    /// The background of a document with the given instance id.
    Background(u64),
    /// The data dots.
    Dots(u64),
    /// The ring of the finder pattern in column and row `(c, r)` of the corners (0 or 1 each).
    CornerSquare(u64, u64, u64),
    /// The center of a finder pattern.
    CornerDot(u64, u64, u64),
}

/// The pieces of a layer's id.
pub open spec fn name_pieces(n: LayerName) -> Seq<Piece> {
    match n {
        LayerName::Background(id) => seq![Piece::Lit("background-color-"), Piece::Nat(id)],
        LayerName::Dots(id) => seq![Piece::Lit("dot-color-"), Piece::Nat(id)],
        LayerName::CornerSquare(c, r, id) => seq![Piece::Lit("corners-square-color-"), Piece::Nat(c),
            Piece::Lit("-"), Piece::Nat(r), Piece::Lit("-"), Piece::Nat(id)],
        LayerName::CornerDot(c, r, id) => seq![Piece::Lit("corners-dot-color-"), Piece::Nat(c),
            Piece::Lit("-"), Piece::Nat(r), Piece::Lit("-"), Piece::Nat(id)],
    }
}

/// The pieces of a layer's id.
pub fn make_name(n: LayerName) -> (v: Vec<Piece>)
    ensures
        v@ == name_pieces(n),
{
    match n {
        LayerName::Background(id) => vec![Piece::Lit("background-color-"), Piece::Nat(id)],
        LayerName::Dots(id) => vec![Piece::Lit("dot-color-"), Piece::Nat(id)],
        LayerName::CornerSquare(c, r, id) => vec![Piece::Lit("corners-square-color-"), Piece::Nat(c),
            Piece::Lit("-"), Piece::Nat(r), Piece::Lit("-"), Piece::Nat(id)],
        LayerName::CornerDot(c, r, id) => vec![Piece::Lit("corners-dot-color-"), Piece::Nat(c),
            Piece::Lit("-"), Piece::Nat(r), Piece::Lit("-"), Piece::Nat(id)],
    }
}

/// The definitions and the fill of a painted layer (see `paint_pieces`).
pub fn create_color(
    gradient: Option<&Gradient>,
    color: &Color,
    q: i64,
    x: i128,
    y: i128,
    height: i128,
    width: i128,
    name: LayerName,
) -> (r: (Vec<Piece>, Vec<Piece>))
    requires
        paint_in_bounds(x as int, y as int, height as int, width as int),
        -1 <= q <= 1,
    ensures
        (r.0@, r.1@) == paint_pieces(match gradient { Some(g) => Some(*g), None => None }, *color, q as int,
            x as int, y as int, height as int, width as int, name_pieces(name)),
{
    match gradient {
        None => {
            let d: Vec<Piece> = Vec::new();
            assert(d@.len() == 0);
            (d, color_pieces_exec(color))
        },
        Some(g) => {
            let mut stops = stops_pieces_exec(&g.color_stops);
            let mut fill = vec![Piece::Lit("url(#")];
            let mut nm = make_name(name);
            let mut close = vec![Piece::Lit(")")];
            fill.append(&mut nm);
            fill.append(&mut close);
            let mut defs: Vec<Piece>;
            match g.gradient_type {
                GradientType::Radial => {
                    let cx = x + width / 2;
                    let cy = y + height / 2;
                    let rr = (if width > height { width } else { height }) / 2;
                    defs = vec![Piece::Lit("<radialGradient id=\"")];
                    let mut nm2 = make_name(name);
                    defs.append(&mut nm2);
                    let mut mid = vec![Piece::Lit("\" gradientUnits=\"userSpaceOnUse\" fx=\""), Piece::Units(cx),
                        Piece::Lit("\" fy=\""), Piece::Units(cy), Piece::Lit("\" cx=\""), Piece::Units(cx),
                        Piece::Lit("\" cy=\""), Piece::Units(cy), Piece::Lit("\" r=\""), Piece::Units(rr),
                        Piece::Lit("\">\n")];
                    defs.append(&mut mid);
                    defs.append(&mut stops);
                    let mut end = vec![Piece::Lit("</radialGradient>\n")];
                    defs.append(&mut end);
                },
                GradientType::Linear => {
                    let (dx, dy): (i128, i128) = if q == 1 {
                        (-(g.rotation.y as i128), g.rotation.x as i128)
                    } else if q == -1 {
                        (g.rotation.y as i128, -(g.rotation.x as i128))
                    } else {
                        (g.rotation.x as i128, g.rotation.y as i128)
                    };
                    let (x1, y1, x2, y2) = linear_ends_exec(dx, dy, x, y, height, width);
                    defs = vec![Piece::Lit("<linearGradient id=\"")];
                    let mut nm2 = make_name(name);
                    defs.append(&mut nm2);
                    let mut mid = vec![Piece::Lit("\" gradientUnits=\"userSpaceOnUse\" x1=\""), Piece::Units(x1),
                        Piece::Lit("\" y1=\""), Piece::Units(y1), Piece::Lit("\" x2=\""), Piece::Units(x2),
                        Piece::Lit("\" y2=\""), Piece::Units(y2), Piece::Lit("\">\n")];
                    defs.append(&mut mid);
                    defs.append(&mut stops);
                    let mut end = vec![Piece::Lit("</linearGradient>\n")];
                    defs.append(&mut end);
                },
            }
            let ghost gs = paint_pieces(Some(*g), *color, q as int, x as int, y as int, height as int, width as int,
                name_pieces(name));
            assert(fill@ =~= gs.1);
            assert(defs@ =~= gs.0);
            (defs, fill)
        },
    }
}

} // verus!
