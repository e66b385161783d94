//! The SVG figures of single dots and of the finder pattern parts.
//! Coordinates and sizes are held in thousandths of a pixel; a rotation is a number of
//! quarter turns around the figure's center.
use vstd::prelude::*;
use crate::text::Piece;
use crate::types::{CornerDotType, CornerSquareType, DotType};

verus! {

/// Bound on the coordinates that figures are drawn at, in thousandths of a pixel.
pub open spec fn coord_bound() -> int {
    0x10_0000_0000_0000
}

/// A length piece.
pub open spec fn un(v: int) -> Piece {
    Piece::Units(v as i128)
}

/// The basic figures that dots are drawn with.
#[derive(Debug, Clone, Copy, PartialEq, Eq, Structural)]
pub enum BasicFigure {
    /// A circle filling the square.
    Dot,
    /// The square itself.
    Square,
    /// A square with its right side rounded into a half circle.
    SideRounded,
    /// A square with its top right corner rounded with half the side as radius.
    CornerRounded,
    /// A square with its top right corner rounded with the whole side as radius.
    CornerExtraRounded,
    /// A square with its top left and bottom right corners rounded.
    CornersRounded,
}

/// The closing of a figure: its rotation by `q` quarter turns around its center.
pub open spec fn rotation_pieces(x: int, y: int, s: int, q: int) -> Seq<Piece> {
    seq![Piece::Lit(" transform=\"rotate("), un(q * 90000), Piece::Lit(","), un(x + s / 2),
        Piece::Lit(","), un(y + s / 2), Piece::Lit(")\"/>")]
}

/// The SVG element of a basic figure in the square of side `s` at `(x, y)`,
/// rotated by `q` quarter turns.
pub open spec fn basic_figure_pieces(f: BasicFigure, x: int, y: int, s: int, q: int) -> Seq<Piece> {
    let h = s / 2;
    let body = match f {
        BasicFigure::Dot => seq![Piece::Lit("<circle cx=\""), un(x + h), Piece::Lit("\" cy=\""), un(y + h),
            Piece::Lit("\" r=\""), un(h), Piece::Lit("\"")],
        BasicFigure::Square => seq![Piece::Lit("<rect x=\""), un(x), Piece::Lit("\" y=\""), un(y),
            Piece::Lit("\" width=\""), un(s), Piece::Lit("\" height=\""), un(s), Piece::Lit("\"")],
        BasicFigure::SideRounded => seq![Piece::Lit("<path d=\"M "), un(x), Piece::Lit(" "), un(y),
            Piece::Lit("v "), un(s), Piece::Lit("h "), un(h), Piece::Lit("a "), un(h), Piece::Lit(" "), un(h),
            Piece::Lit(", 0, 0, 0, 0 "), un(-s), Piece::Lit("\"")],
        BasicFigure::CornerRounded => seq![Piece::Lit("<path d=\"M "), un(x), Piece::Lit(" "), un(y),
            Piece::Lit("v "), un(s), Piece::Lit("h "), un(s), Piece::Lit("v "), un(-h), Piece::Lit("a "), un(h),
            Piece::Lit(" "), un(h), Piece::Lit(", 0, 0, 0, "), un(-h), Piece::Lit(" "), un(-s), Piece::Lit("\"")],
        BasicFigure::CornerExtraRounded => seq![Piece::Lit("<path d=\"M "), un(x), Piece::Lit(" "), un(y),
            Piece::Lit("v "), un(s), Piece::Lit("h "), un(s), Piece::Lit("a "), un(s), Piece::Lit(" "), un(s),
            Piece::Lit(", 0, 0, 0, "), un(-s), Piece::Lit(" "), un(-s), Piece::Lit("\"")],
        BasicFigure::CornersRounded => seq![Piece::Lit("<path d=\"M "), un(x), Piece::Lit(" "), un(y),
            Piece::Lit("v "), un(h), Piece::Lit("a "), un(h), Piece::Lit(" "), un(h), Piece::Lit(", 0, 0, 0, "),
            un(h), Piece::Lit(" "), un(h), Piece::Lit("h "), un(h), Piece::Lit("v "), un(-h), Piece::Lit("a "),
            un(h), Piece::Lit(" "), un(h), Piece::Lit(", 0, 0, 0, "), un(-h), Piece::Lit(" "), un(-h),
            Piece::Lit("\"")],
    };
    body + rotation_pieces(x, y, s, q)
}

/// The bounds under which figure arithmetic stays exact.
pub open spec fn figure_in_bounds(x: int, y: int, s: int) -> bool {
    -coord_bound() <= x <= coord_bound() && -coord_bound() <= y <= coord_bound() && 0 <= s <= coord_bound()
}

/// The SVG element of a basic figure (see `basic_figure_pieces`).
pub fn basic_figure(f: BasicFigure, x: i64, y: i64, s: i64, q: i64) -> (v: Vec<Piece>)
    requires
        figure_in_bounds(x as int, y as int, s as int),
        -1 <= q <= 2,
    ensures
        v@ == basic_figure_pieces(f, x as int, y as int, s as int, q as int),
{
    let h = s / 2;
    let ns = -s;
    let nh = -h;
    let mut v = match f {
        BasicFigure::Dot => vec![Piece::Lit("<circle cx=\""), Piece::Units((x + h) as i128), Piece::Lit("\" cy=\""),
            Piece::Units((y + h) as i128), Piece::Lit("\" r=\""), Piece::Units((h) as i128), Piece::Lit("\"")],
        BasicFigure::Square => vec![Piece::Lit("<rect x=\""), Piece::Units((x) as i128), Piece::Lit("\" y=\""),
            Piece::Units((y) as i128), Piece::Lit("\" width=\""), Piece::Units((s) as i128), Piece::Lit("\" height=\""),
            Piece::Units((s) as i128), Piece::Lit("\"")],
        BasicFigure::SideRounded => vec![Piece::Lit("<path d=\"M "), Piece::Units((x) as i128), Piece::Lit(" "),
            Piece::Units((y) as i128), Piece::Lit("v "), Piece::Units((s) as i128), Piece::Lit("h "), Piece::Units((h) as i128),
            Piece::Lit("a "), Piece::Units((h) as i128), Piece::Lit(" "), Piece::Units((h) as i128), Piece::Lit(", 0, 0, 0, 0 "),
            Piece::Units((ns) as i128), Piece::Lit("\"")],
        BasicFigure::CornerRounded => vec![Piece::Lit("<path d=\"M "), Piece::Units((x) as i128), Piece::Lit(" "),
            Piece::Units((y) as i128), Piece::Lit("v "), Piece::Units((s) as i128), Piece::Lit("h "), Piece::Units((s) as i128),
            Piece::Lit("v "), Piece::Units((nh) as i128), Piece::Lit("a "), Piece::Units((h) as i128), Piece::Lit(" "),
            Piece::Units((h) as i128), Piece::Lit(", 0, 0, 0, "), Piece::Units((nh) as i128), Piece::Lit(" "), Piece::Units((ns) as i128),
            Piece::Lit("\"")],
        BasicFigure::CornerExtraRounded => vec![Piece::Lit("<path d=\"M "), Piece::Units((x) as i128), Piece::Lit(" "),
            Piece::Units((y) as i128), Piece::Lit("v "), Piece::Units((s) as i128), Piece::Lit("h "), Piece::Units((s) as i128),
            Piece::Lit("a "), Piece::Units((s) as i128), Piece::Lit(" "), Piece::Units((s) as i128), Piece::Lit(", 0, 0, 0, "),
            Piece::Units((ns) as i128), Piece::Lit(" "), Piece::Units((ns) as i128), Piece::Lit("\"")],
        BasicFigure::CornersRounded => vec![Piece::Lit("<path d=\"M "), Piece::Units((x) as i128), Piece::Lit(" "),
            Piece::Units((y) as i128), Piece::Lit("v "), Piece::Units((h) as i128), Piece::Lit("a "), Piece::Units((h) as i128),
            Piece::Lit(" "), Piece::Units((h) as i128), Piece::Lit(", 0, 0, 0, "), Piece::Units((h) as i128), Piece::Lit(" "),
            Piece::Units((h) as i128), Piece::Lit("h "), Piece::Units((h) as i128), Piece::Lit("v "), Piece::Units((nh) as i128),
            Piece::Lit("a "), Piece::Units((h) as i128), Piece::Lit(" "), Piece::Units((h) as i128), Piece::Lit(", 0, 0, 0, "),
            Piece::Units((nh) as i128), Piece::Lit(" "), Piece::Units((nh) as i128), Piece::Lit("\"")],
    };
    let mut r = vec![Piece::Lit(" transform=\"rotate("), Piece::Units((q * 90000) as i128), Piece::Lit(","),
        Piece::Units((x + h) as i128), Piece::Lit(","), Piece::Units((y + h) as i128), Piece::Lit(")\"/>")];
    v.append(&mut r);
    assert(v@ =~= basic_figure_pieces(f, x as int, y as int, s as int, q as int));
    v
}


/// Which of the four side neighbors of a dot are drawn too.
#[derive(Debug, Clone, Copy, PartialEq, Eq, Structural)]
pub struct Neighbors {
    pub left: bool,
    pub right: bool,
    pub top: bool,
    pub bottom: bool,
}

/// The number of drawn side neighbors.
pub open spec fn neighbor_count(n: Neighbors) -> int {
    (if n.left { 1int } else { 0 }) + (if n.right { 1int } else { 0 }) + (if n.top { 1int } else { 0 })
        + (if n.bottom { 1int } else { 0 })
}

/// The figure and rotation of a rounded dot: a circle when alone, a square between two
/// opposite or three or more neighbors, a rounded corner turned away from two neighbors,
/// a rounded side turned away from one.
pub open spec fn rounded_choice(n: Neighbors, corner: BasicFigure) -> (BasicFigure, int) {
    let count = neighbor_count(n);
    if count == 0 {
        (BasicFigure::Dot, 0)
    } else if count > 2 || (n.left && n.right) || (n.top && n.bottom) {
        (BasicFigure::Square, 0)
    } else if count == 2 {
        (corner, if n.left && n.top { 1 } else if n.top && n.right { 2 } else if n.right && n.bottom { -1 } else { 0 })
    } else {
        (BasicFigure::SideRounded, if n.top { 1 } else if n.right { 2 } else if n.bottom { -1 } else { 0 })
    }
}

/// The figure and rotation of a classy dot: two rounded corners when alone, a rounded top
/// left corner without a left or top neighbor, a rounded bottom right corner without a right
/// or bottom neighbor, else a square.
pub open spec fn classy_choice(n: Neighbors, corner: BasicFigure) -> (BasicFigure, int) {
    if neighbor_count(n) == 0 {
        (BasicFigure::CornersRounded, 1)
    } else if !n.left && !n.top {
        (corner, -1)
    } else if !n.right && !n.bottom {
        (corner, 1)
    } else {
        (BasicFigure::Square, 0)
    }
}

/// The figure and rotation of a data dot of a given type with given neighbors.
pub open spec fn dot_choice(t: DotType, n: Neighbors) -> (BasicFigure, int) {
    match t {
        DotType::Dots => (BasicFigure::Dot, 0),
        DotType::Square => (BasicFigure::Square, 0),
        DotType::Rounded => rounded_choice(n, BasicFigure::CornerRounded),
        DotType::ExtraRounded => rounded_choice(n, BasicFigure::CornerExtraRounded),
        DotType::Classy => classy_choice(n, BasicFigure::CornerRounded),
        DotType::ClassyRounded => classy_choice(n, BasicFigure::CornerExtraRounded),
    }
}

/// The SVG element of a data dot.
pub open spec fn dot_pieces(t: DotType, x: int, y: int, s: int, n: Neighbors) -> Seq<Piece> {
    basic_figure_pieces(dot_choice(t, n).0, x, y, s, dot_choice(t, n).1)
}

fn rounded_choice_exec(n: Neighbors, corner: BasicFigure) -> (r: (BasicFigure, i64))
    ensures
        r.0 == rounded_choice(n, corner).0,
        r.1 as int == rounded_choice(n, corner).1,
{
    let count: i64 = (if n.left { 1 } else { 0 }) + (if n.right { 1 } else { 0 }) + (if n.top { 1 } else { 0 })
        + (if n.bottom { 1 } else { 0 });
    if count == 0 {
        (BasicFigure::Dot, 0)
    } else if count > 2 || (n.left && n.right) || (n.top && n.bottom) {
        (BasicFigure::Square, 0)
    } else if count == 2 {
        let q: i64 = if n.left && n.top { 1 } else if n.top && n.right { 2 } else if n.right && n.bottom { -1 } else { 0 };
        (corner, q)
    } else {
        let q: i64 = if n.top { 1 } else if n.right { 2 } else if n.bottom { -1 } else { 0 };
        (BasicFigure::SideRounded, q)
    }
}

fn classy_choice_exec(n: Neighbors, corner: BasicFigure) -> (r: (BasicFigure, i64))
    ensures
        r.0 == classy_choice(n, corner).0,
        r.1 as int == classy_choice(n, corner).1,
{
    if !n.left && !n.right && !n.top && !n.bottom {
        (BasicFigure::CornersRounded, 1)
    } else if !n.left && !n.top {
        (corner, -1)
    } else if !n.right && !n.bottom {
        (corner, 1)
    } else {
        (BasicFigure::Square, 0)
    }
}

/// Draws data dots of one type.
#[derive(Debug, Clone, Copy)]
pub struct QRDot {
    pub dot_type: DotType,
}

impl QRDot {
    /// A drawer of dots of the given type.
    pub fn new(dot_type: DotType) -> (r: Self)
        ensures
            r.dot_type == dot_type,
    {
        QRDot { dot_type }
    }

    /// The SVG element of a dot in the square of side `size` at `(x, y)`.
    pub fn draw(&self, x: i64, y: i64, size: i64, neighbors: Neighbors) -> (v: Vec<Piece>)
        requires
            figure_in_bounds(x as int, y as int, size as int),
        ensures
            v@ == dot_pieces(self.dot_type, x as int, y as int, size as int, neighbors),
    {
        let (f, q) = match self.dot_type {
            DotType::Dots => (BasicFigure::Dot, 0),
            DotType::Square => (BasicFigure::Square, 0),
            DotType::Rounded => rounded_choice_exec(neighbors, BasicFigure::CornerRounded),
            DotType::ExtraRounded => rounded_choice_exec(neighbors, BasicFigure::CornerExtraRounded),
            DotType::Classy => classy_choice_exec(neighbors, BasicFigure::CornerRounded),
            DotType::ClassyRounded => classy_choice_exec(neighbors, BasicFigure::CornerExtraRounded),
        };
        basic_figure(f, x, y, size, q)
    }
}

/// The end of the inner arc of a round finder ring: a large arc drawn the other way,
/// ending a tenth of a pixel to the left of its start.
pub const INNER_ARC_END: &'static str = " 0 1 1 -0.1 0Z\"";

/// The SVG element of the outer ring of a finder pattern of side `s` at `(x, y)`.
pub open spec fn corner_square_pieces(t: CornerSquareType, x: int, y: int, s: int, q: int) -> Seq<Piece> {
    let d = s / 7;
    let h = s / 2;
    let body = match t {
        CornerSquareType::Square => seq![Piece::Lit("<path clip-rule=\"evenodd\" d=\"M "), un(x), Piece::Lit(" "),
            un(y), Piece::Lit("v "), un(s), Piece::Lit("h "), un(s), Piece::Lit("v "), un(-s), Piece::Lit("zM "),
            un(x + d), Piece::Lit(" "), un(y + d), Piece::Lit("h "), un(s - 2 * d), Piece::Lit("v "),
            un(s - 2 * d), Piece::Lit("h "), un(-s + 2 * d), Piece::Lit("z\"")],
        CornerSquareType::Dot => seq![Piece::Lit("<path clip-rule=\"evenodd\" d=\"M "), un(x + h), Piece::Lit(" "),
            un(y), Piece::Lit("a "), un(h), Piece::Lit(" "), un(h), Piece::Lit(" 0 1 0 0.1 0zm 0 "), un(d),
            Piece::Lit("a "), un(h - d), Piece::Lit(" "), un(h - d), Piece::Lit(INNER_ARC_END)],
    };
    body + rotation_pieces(x, y, s, q)
}

/// Draws the outer rings of the finder patterns.
#[derive(Debug, Clone, Copy)]
pub struct QRCornerSquare {
    pub square_type: CornerSquareType,
}

impl QRCornerSquare {
    /// A drawer of rings of the given type.
    pub fn new(square_type: CornerSquareType) -> (r: Self)
        ensures
            r.square_type == square_type,
    {
        QRCornerSquare { square_type }
    }

    /// The SVG element of a ring of side `size` at `(x, y)`, turned by `q` quarter turns.
    pub fn draw(&self, x: i64, y: i64, size: i64, q: i64) -> (v: Vec<Piece>)
        requires
            figure_in_bounds(x as int, y as int, size as int),
            -1 <= q <= 2,
        ensures
            v@ == corner_square_pieces(self.square_type, x as int, y as int, size as int, q as int),
    {
        let d = size / 7;
        let h = size / 2;
        let ns = -size;
        let inner = size - 2 * d;
        let ninner = -size + 2 * d;
        let hd = h - d;
        let mut v = match self.square_type {
            CornerSquareType::Square => vec![Piece::Lit("<path clip-rule=\"evenodd\" d=\"M "), Piece::Units((x) as i128),
                Piece::Lit(" "), Piece::Units((y) as i128), Piece::Lit("v "), Piece::Units((size) as i128), Piece::Lit("h "),
                Piece::Units((size) as i128), Piece::Lit("v "), Piece::Units((ns) as i128), Piece::Lit("zM "), Piece::Units((x + d) as i128),
                Piece::Lit(" "), Piece::Units((y + d) as i128), Piece::Lit("h "), Piece::Units((inner) as i128), Piece::Lit("v "),
                Piece::Units((inner) as i128), Piece::Lit("h "), Piece::Units((ninner) as i128), Piece::Lit("z\"")],
            CornerSquareType::Dot => vec![Piece::Lit("<path clip-rule=\"evenodd\" d=\"M "), Piece::Units((x + h) as i128),
                Piece::Lit(" "), Piece::Units((y) as i128), Piece::Lit("a "), Piece::Units((h) as i128), Piece::Lit(" "),
                Piece::Units((h) as i128), Piece::Lit(" 0 1 0 0.1 0zm 0 "), Piece::Units((d) as i128), Piece::Lit("a "),
                Piece::Units((hd) as i128), Piece::Lit(" "), Piece::Units((hd) as i128), Piece::Lit(INNER_ARC_END)],
        };
        let mut r = vec![Piece::Lit(" transform=\"rotate("), Piece::Units((q * 90000) as i128), Piece::Lit(","),
            Piece::Units((x + h) as i128), Piece::Lit(","), Piece::Units((y + h) as i128), Piece::Lit(")\"/>")];
        v.append(&mut r);
        assert(v@ =~= corner_square_pieces(self.square_type, x as int, y as int, size as int, q as int));
        v
    }
}

/// The SVG element of the center of a finder pattern of side `s` at `(x, y)`.
pub open spec fn corner_dot_pieces(t: CornerDotType, x: int, y: int, s: int, q: int) -> Seq<Piece> {
    match t {
        CornerDotType::Square => basic_figure_pieces(BasicFigure::Square, x, y, s, q),
        CornerDotType::Dot => basic_figure_pieces(BasicFigure::Dot, x, y, s, q),
    }
}

/// Draws the centers of the finder patterns.
#[derive(Debug, Clone, Copy)]
pub struct QRCornerDot {
    pub dot_type: CornerDotType,
}

impl QRCornerDot {
    /// A drawer of centers of the given type.
    pub fn new(dot_type: CornerDotType) -> (r: Self)
        ensures
            r.dot_type == dot_type,
    {
        QRCornerDot { dot_type }
    }

    /// The SVG element of a center of side `size` at `(x, y)`, turned by `q` quarter turns.
    pub fn draw(&self, x: i64, y: i64, size: i64, q: i64) -> (v: Vec<Piece>)
        requires
            figure_in_bounds(x as int, y as int, size as int),
            -1 <= q <= 2,
        ensures
            v@ == corner_dot_pieces(self.dot_type, x as int, y as int, size as int, q as int),
    {
        match self.dot_type {
            CornerDotType::Square => basic_figure(BasicFigure::Square, x, y, size, q),
            CornerDotType::Dot => basic_figure(BasicFigure::Dot, x, y, size, q),
        }
    }
}

} // verus!
