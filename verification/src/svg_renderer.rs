//! SVG rendering of a styled QR code: background, data dots, finder patterns and image,
//! each a clip path filled with a color or a gradient.
//! Lengths are held in thousandths of a pixel.
use vstd::prelude::*;
use crate::config::QRCodeStylingOptions;
use crate::error::QRError;
use crate::figures::{coord_bound, figure_in_bounds, un, corner_dot_pieces, corner_square_pieces, dot_pieces, Neighbors, QRCornerDot, QRCornerSquare, QRDot};
use crate::layout::{calculate_image_hide_area, compute_dot_size, compute_origin, should_draw_dot, code_side, dot_allowed, dot_size, hidden_side, isqrt_of, min_side, origin, round_length};
use crate::paint::{create_color, name_pieces, make_name, paint_pieces, LayerName};
use crate::qr_matrix::QRMatrix;
use crate::text::{lemma_pieces_text_concat, piece_text, pieces_text, pieces_to_string, Piece};
use crate::types::ShapeType;

verus! {

#[verifier::external_type_specification]
#[verifier::external_body]
pub struct ExFixedBitSet(fixedbitset::FixedBitSet);

/// The bits that are set in a `fixedbitset::FixedBitSet`.
pub uninterp spec fn bitset_members(s: fixedbitset::FixedBitSet) -> Set<usize>;

/// The number of bits of a `fixedbitset::FixedBitSet` (`len`).
pub uninterp spec fn bitset_len(s: fixedbitset::FixedBitSet) -> nat;

/// `FixedBitSet::with_capacity`: a set of `bits` bits, none of them set.
#[verifier::external_body]
fn bitset_with_capacity(bits: usize) -> (s: fixedbitset::FixedBitSet)
    ensures
        bitset_members(s) == Set::<usize>::empty(),
        bitset_len(s) == bits,
{
    fixedbitset::FixedBitSet::with_capacity(bits)
}

/// `FixedBitSet::insert`: sets bit `bit`, which must be below the length (it panics otherwise).
#[verifier::external_body]
fn bitset_insert(s: &mut fixedbitset::FixedBitSet, bit: usize)
    requires
        bit < bitset_len(*old(s)),
    ensures
        bitset_members(*final(s)) == bitset_members(*old(s)).insert(bit),
        bitset_len(*final(s)) == bitset_len(*old(s)),
{
    s.insert(bit)
}

/// `FixedBitSet::contains`: whether bit `bit` is set; `false` at and above the length.
#[verifier::external_body]
fn bitset_contains(s: &fixedbitset::FixedBitSet, bit: usize) -> (b: bool)
    ensures
        b == (bit < bitset_len(*s) && bitset_members(*s).contains(bit)),
{
    s.contains(bit)
}

/// `base64::Engine::encode` with the standard engine (`base64::engine::general_purpose::STANDARD`):
/// states that the text is the standard base64 of the bytes (RFC 4648 alphabet, `=` padding).
/// The bound on the length keeps `encoded_len` from overflowing, where the crate panics.
#[verifier::external_body]
fn base64_standard_encode(data: &[u8]) -> (s: String)
    requires
        data@.len() <= usize::MAX / 2,
    ensures
        s@ == base64_text(data@),
{
    base64::Engine::encode(&base64::engine::general_purpose::STANDARD, data)
}

/// `RandomState::new` of std: a hasher state with fresh random keys. Nothing is stated of it.
#[verifier::external_body]
fn fresh_random_state() -> std::collections::hash_map::RandomState {
    std::collections::hash_map::RandomState::new()
}

/// `BuildHasher::hash_one` of std, on the byte 0: a number that depends on the state's random
/// keys. Nothing is stated of it.
#[verifier::external_body]
fn random_state_number(state: &std::collections::hash_map::RandomState) -> u64 {
    std::hash::BuildHasher::hash_one(state, 0u8)
}

/// The opening of a clip path with the id `clip-path-NAME`.
pub open spec fn clip_open_pieces(name: LayerName) -> Seq<Piece> {
    seq![Piece::Lit("<clipPath id=\"clip-path-")] + name_pieces(name) + seq![Piece::Lit("\">\n")]
}

/// The closing of a clip path whose content ends without a line break.
pub open spec fn clip_close_pieces() -> Seq<Piece> {
    seq![Piece::Lit("\n</clipPath>\n")]
}

/// A rectangle of the box `(x, y, width, height)` painted with `fill` through the clip path of
/// the layer `name`.
pub open spec fn painted_rect_pieces(x: Seq<Piece>, y: Seq<Piece>, width: Seq<Piece>, height: Seq<Piece>,
    fill: Seq<Piece>, name: LayerName) -> Seq<Piece>
{
    seq![Piece::Lit("<rect x=\"")] + x + seq![Piece::Lit("\" y=\"")] + y + seq![Piece::Lit("\" width=\"")] + width
        + seq![Piece::Lit("\" height=\"")] + height + seq![Piece::Lit("\" fill=\"")] + fill
        + seq![Piece::Lit("\" clip-path=\"url(#clip-path-")] + name_pieces(name) + seq![Piece::Lit(")\"/>\n")]
}

/// A whole-canvas rectangle painted through a clip path.
pub open spec fn canvas_rect_pieces(o: QRCodeStylingOptions, fill: Seq<Piece>, name: LayerName) -> Seq<Piece> {
    painted_rect_pieces(seq![Piece::Lit("0")], seq![Piece::Lit("0")], seq![Piece::Nat(o.width as u64)],
        seq![Piece::Nat(o.height as u64)], fill, name)
}

/// The background layer: the definitions (its clip path, a rectangle with rounded corners as
/// asked, centered, and its gradient) and the element that paints it.
pub open spec fn background_pieces(o: QRCodeStylingOptions, id: u64) -> (Seq<Piece>, Seq<Piece>) {
    let bg = o.background_options;
    let name = LayerName::Background(id);
    let bw: int = if bg.round > 0 { min_side(o.width, o.height) } else { o.width as int };
    let bh: int = if bg.round > 0 { min_side(o.width, o.height) } else { o.height as int };
    let bx = round_length(o, (o.width - bw) * 1000 / 2);
    let by = round_length(o, (o.height - bh) * 1000 / 2);
    let rx: int = if bg.round > 0 { bh * bg.round / 2 } else { 0 };
    let paint = paint_pieces(bg.gradient, bg.color, 0, 0, 0, o.height * 1000, o.width * 1000, name_pieces(name));
    let defs = seq![Piece::Lit("<clipPath id=\"clip-path-")] + name_pieces(name) + seq![Piece::Lit("\"><rect x=\""),
        Piece::Units(bx as i128), Piece::Lit("\" y=\""), Piece::Units(by as i128), Piece::Lit("\" width=\""),
        Piece::Nat(bw as u64), Piece::Lit("\" height=\""), Piece::Nat(bh as u64), Piece::Lit("\"")]
        + (if rx > 0 { seq![Piece::Lit(" rx=\""), Piece::Units(rx as i128), Piece::Lit("\"")] } else { Seq::empty() })
        + seq![Piece::Lit("/></clipPath>\n")] + paint.0;
    (defs, canvas_rect_pieces(o, paint.1, name))
}

/// The sizes of a code of `count` modules per side can be laid out: the margins fit, and a
/// circular code has modules of positive size unless the margins take the whole side.
pub open spec fn renderable(o: QRCodeStylingOptions, count: int) -> bool {
    &&& code_side(o) >= 0
    &&& o.shape == ShapeType::Circle ==> (dot_size(o, count) > 0 || code_side(o) == 0)
    &&& o.image matches Some(data) ==> data@.len() <= usize::MAX / 2
}


/// Where and how large the modules of a code are drawn.
pub struct GridLayout {
    /// Modules per side.
    pub count: int,
    /// Side of a module.
    pub dot: int,
    /// Left edge of the code.
    pub x0: int,
    /// Top edge of the code.
    pub y0: int,
    /// Modules per side hidden behind the image, across.
    pub hide_x: int,
    /// Modules per side hidden behind the image, down.
    pub hide_y: int,
}

/// Bounds under which the coordinates of a layout stay exact: a module size and a code side of
/// at most an eighth of the figure bound, and an origin within it.
pub open spec fn grid_in_bounds(g: GridLayout) -> bool {
    &&& 0 <= g.dot <= coord_bound() / 8
    &&& 0 <= g.count * g.dot <= coord_bound() / 8
    &&& -coord_bound() / 8 <= g.x0 <= coord_bound() / 8
    &&& -coord_bound() / 8 <= g.y0 <= coord_bound() / 8
}

/// The layout of a code of `count` modules per side drawn with options `o`.
pub open spec fn grid_layout(o: QRCodeStylingOptions, count: int) -> GridLayout {
    let dot = dot_size(o, count);
    let hide = if o.image is Some { hidden_side(o, count) } else { 0 };
    GridLayout {
        count,
        dot,
        x0: origin(o, count, dot, o.width as int),
        y0: origin(o, count, dot, o.height as int),
        hide_x: hide,
        hide_y: hide,
    }
}

/// The layout of a code whose margins fit keeps its coordinates within bounds.
proof fn lemma_layout_in_bounds(o: QRCodeStylingOptions, count: int)
    requires
        code_side(o) >= 0,
        1 <= count,
    ensures
        grid_in_bounds(grid_layout(o, count)),
        0 <= grid_layout(o, count).x0 <= o.width * 1000,
        0 <= grid_layout(o, count).y0 <= o.height * 1000,
{
    crate::layout::lemma_dot_size_fits(o, count);
    let d = dot_size(o, count);
    assert(d <= count * d) by (nonlinear_arith) requires count >= 1, d >= 0;
    assert(code_side(o) <= 0xffff_ffff);
}

/// Whether a dot is drawn for module `(r, c)`: it is dark and may be drawn.
pub open spec fn drawn(o: QRCodeStylingOptions, m: QRMatrix, g: GridLayout, r: int, c: int) -> bool {
    0 <= r < g.count && 0 <= c < g.count && dot_allowed(o, g.count, g.hide_x, g.hide_y, r, c) && m.dark(r, c)
}

/// Which side neighbors of module `(r, c)` get dots.
pub open spec fn drawn_neighbors(o: QRCodeStylingOptions, m: QRMatrix, g: GridLayout, r: int, c: int) -> Neighbors {
    Neighbors {
        left: drawn(o, m, g, r, c - 1),
        right: drawn(o, m, g, r, c + 1),
        top: drawn(o, m, g, r - 1, c),
        bottom: drawn(o, m, g, r + 1, c),
    }
}

/// The dot of module `(r, c)` and a line break, where one is drawn.
pub open spec fn cell_pieces(o: QRCodeStylingOptions, m: QRMatrix, g: GridLayout, r: int, c: int) -> Seq<Piece> {
    if drawn(o, m, g, r, c) {
        dot_pieces(o.dots_options.dot_type, g.x0 + c * g.dot, g.y0 + r * g.dot, g.dot, drawn_neighbors(o, m, g, r, c))
            + seq![Piece::Lit("\n")]
    } else {
        Seq::empty()
    }
}

/// The dots of the first `n` modules of row `r`.
pub open spec fn row_pieces(o: QRCodeStylingOptions, m: QRMatrix, g: GridLayout, r: int, n: int) -> Seq<Piece>
    decreases n,
{
    if n <= 0 { Seq::empty() } else { row_pieces(o, m, g, r, n - 1) + cell_pieces(o, m, g, r, n - 1) }
}

/// The dots of the first `n` rows, row by row.
pub open spec fn grid_pieces(o: QRCodeStylingOptions, m: QRMatrix, g: GridLayout, n: int) -> Seq<Piece>
    decreases n,
{
    if n <= 0 { Seq::empty() } else { grid_pieces(o, m, g, n - 1) + row_pieces(o, m, g, n - 1, g.count) }
}

/// The number of extra modules drawn on each side of a circular code, to fill the circle:
/// none where the modules have no size or already fill the free side.
pub open spec fn extra_dots(o: QRCodeStylingOptions, g: GridLayout) -> int {
    if g.dot == 0 || code_side(o) * 1000 - g.count * g.dot < 0 {
        0
    } else {
        (code_side(o) * 1000 - g.count * g.dot) / (2 * g.dot)
    }
}

/// Modules per side of the square that holds a circular code and its extra modules.
pub open spec fn fake_side(o: QRCodeStylingOptions, g: GridLayout) -> int {
    g.count + 2 * extra_dots(o, g)
}

/// The module of the code that the extra module `(r, c)` of a circular code copies.
pub open spec fn source_index(count: int, extra: int, i: int) -> int {
    if i < 2 * extra { i } else if i >= count { i - 2 * extra } else { i - extra }
}

/// Whether an extra dot is drawn at `(r, c)` of the square around a circular code: it lies
/// outside the code (and its first ring of extra modules), inside the circle, and copies a
/// dark module.
pub open spec fn fake_drawn(o: QRCodeStylingOptions, m: QRMatrix, g: GridLayout, r: int, c: int) -> bool {
    let a = extra_dots(o, g);
    let f = fake_side(o, g);
    let low = if a >= 1 { a - 1 } else { 0 };
    let inner = r >= low && r <= f - a && c >= low && c <= f - a;
    let outside = (2 * r - f) * (2 * r - f) + (2 * c - f) * (2 * c - f) > f * f;
    let sr = source_index(g.count, a, r);
    let sc = source_index(g.count, a, c);
    !inner && !outside && sr < g.count && sc < g.count && m.dark(sr, sc)
}

/// The neighbors an extra dot is drawn as having: every side that stays inside the square.
pub open spec fn fake_neighbors(f: int, r: int, c: int) -> Neighbors {
    Neighbors { left: c >= 1, right: c + 1 < f, top: r >= 1, bottom: r + 1 < f }
}

/// The extra dot at `(r, c)` and a line break, where one is drawn.
pub open spec fn fake_cell_pieces(o: QRCodeStylingOptions, m: QRMatrix, g: GridLayout, r: int, c: int) -> Seq<Piece> {
    let a = extra_dots(o, g);
    if fake_drawn(o, m, g, r, c) {
        dot_pieces(o.dots_options.dot_type, g.x0 - a * g.dot + c * g.dot, g.y0 - a * g.dot + r * g.dot, g.dot,
            fake_neighbors(fake_side(o, g), r, c)) + seq![Piece::Lit("\n")]
    } else {
        Seq::empty()
    }
}

/// The extra dots of the first `n` modules of row `r` of the square around a circular code.
pub open spec fn fake_row_pieces(o: QRCodeStylingOptions, m: QRMatrix, g: GridLayout, r: int, n: int) -> Seq<Piece>
    decreases n,
{
    if n <= 0 { Seq::empty() } else { fake_row_pieces(o, m, g, r, n - 1) + fake_cell_pieces(o, m, g, r, n - 1) }
}

/// The extra dots of the first `n` rows of the square around a circular code.
pub open spec fn fake_grid_pieces(o: QRCodeStylingOptions, m: QRMatrix, g: GridLayout, n: int) -> Seq<Piece>
    decreases n,
{
    if n <= 0 {
        Seq::empty()
    } else {
        fake_grid_pieces(o, m, g, n - 1) + fake_row_pieces(o, m, g, n - 1, fake_side(o, g))
    }
}

/// Where the modules of a circular code have no size, no extra module of row `r` is drawn.
proof fn lemma_no_extra_rows(o: QRCodeStylingOptions, m: QRMatrix, g: GridLayout, r: int, n: int)
    requires
        g.dot == 0,
        0 <= r < fake_side(o, g),
        n <= fake_side(o, g),
    ensures
        fake_row_pieces(o, m, g, r, n) == Seq::<Piece>::empty(),
    decreases n,
{
    if n > 0 {
        lemma_no_extra_rows(o, m, g, r, n - 1);
        assert(!fake_drawn(o, m, g, r, n - 1));
        assert(fake_row_pieces(o, m, g, r, n) =~= Seq::<Piece>::empty());
    }
}

/// Where the modules of a circular code have no size, no extra modules are drawn.
proof fn lemma_no_extra_grid(o: QRCodeStylingOptions, m: QRMatrix, g: GridLayout, n: int)
    requires
        g.dot == 0,
        n <= fake_side(o, g),
    ensures
        fake_grid_pieces(o, m, g, n) == Seq::<Piece>::empty(),
    decreases n,
{
    if n > 0 {
        lemma_no_extra_grid(o, m, g, n - 1);
        lemma_no_extra_rows(o, m, g, n - 1, fake_side(o, g));
        assert(fake_grid_pieces(o, m, g, n) =~= Seq::<Piece>::empty());
    }
}

/// A circular code whose margins take the whole side has modules of no size, and no extra
/// modules are drawn around it: its dots layer holds only the (empty-sized) dots of the code.
pub proof fn lemma_circle_without_room(o: QRCodeStylingOptions, m: QRMatrix, count: int)
    requires
        o.shape == ShapeType::Circle,
        code_side(o) == 0,
        count >= 1,
    ensures
        grid_layout(o, count).dot == 0,
        extra_dots(o, grid_layout(o, count)) == 0,
        fake_grid_pieces(o, m, grid_layout(o, count), fake_side(o, grid_layout(o, count))) == Seq::<Piece>::empty(),
{
    crate::layout::lemma_isqrt_is(0);
    let r0 = isqrt_of(0);
    assert(r0 == 0) by (nonlinear_arith) requires 0 <= r0, r0 * r0 <= 0;
    assert(crate::layout::real_qr_size(o) == 0);
    let g = grid_layout(o, count);
    assert(g.dot == 0);
    lemma_no_extra_grid(o, m, g, fake_side(o, g));
}

/// Every extra dot of a circular code lies inside the circle inscribed in the square around the
/// code, and outside the code itself (and its first ring of extra modules).
pub proof fn lemma_extra_dots_inside_circle(o: QRCodeStylingOptions, m: QRMatrix, g: GridLayout, r: int, c: int)
    requires
        fake_cell_pieces(o, m, g, r, c).len() > 0,
    ensures
        ({
            let f = fake_side(o, g);
            (2 * r - f) * (2 * r - f) + (2 * c - f) * (2 * c - f) <= f * f
        }),
        ({
            let a = extra_dots(o, g);
            let f = fake_side(o, g);
            let low = if a >= 1 { a - 1 } else { 0 };
            !(low <= r <= f - a && low <= c <= f - a)
        }),
{
}

/// The data dots layer: the clip path of all dots (and of the extra dots of a circular code),
/// its paint, and the element that paints it.
pub open spec fn dots_layer_pieces(o: QRCodeStylingOptions, m: QRMatrix, g: GridLayout, id: u64) -> (Seq<Piece>, Seq<Piece>) {
    let name = LayerName::Dots(id);
    let extra = if o.shape == ShapeType::Circle { fake_grid_pieces(o, m, g, fake_side(o, g)) } else { Seq::empty() };
    let paint = paint_pieces(o.dots_options.gradient, o.dots_options.color, 0, 0, 0, o.height * 1000,
        o.width * 1000, name_pieces(name));
    (clip_open_pieces(name) + grid_pieces(o, m, g, g.count) + extra + clip_close_pieces() + paint.0,
        canvas_rect_pieces(o, paint.1, name))
}

/// `(r * n + c) / n == r` and `(r * n + c) % n == c`.
proof fn lemma_index(r: int, c: int, n: int)
    requires
        0 <= r,
        0 <= c < n,
    ensures
        (r * n + c) / n == r,
        (r * n + c) % n == c,
{
    vstd::arithmetic::div_mod::lemma_fundamental_div_mod_converse(r * n + c, n, r, c);
}

/// For a renderable circular code, fewer than `count` extra modules are drawn on each side.
proof fn lemma_extra_dots_bound(o: QRCodeStylingOptions, count: int)
    requires
        renderable(o, count),
        o.shape == ShapeType::Circle,
        21 <= count <= 177,
    ensures
        0 <= extra_dots(o, grid_layout(o, count)) < count,
{
    let g = grid_layout(o, count);
    let m = code_side(o);
    let d = g.dot;
    if d == 0 {
        return;
    }
    let n = m * m * 1000000 / 2;
    assert(n >= 0) by (nonlinear_arith) requires m >= 0, n == m * m * 1000000 / 2;
    crate::layout::lemma_isqrt_is(n);
    let rr = isqrt_of(n);
    assert(rr == crate::layout::real_qr_size(o));
    assert(m * m * 1000000 <= 2 * n + 1);
    assert(rr + 1 <= 2 * count * d) by {
        if o.dots_options.round_size {
            let q = rr / (count * 1000);
            vstd::arithmetic::div_mod::lemma_fundamental_div_mod(rr, count * 1000);
            assert(d == q * 1000);
            assert(rr < (q + 1) * (count * 1000)) by (nonlinear_arith)
                requires rr == (count * 1000) * q + rr % (count * 1000), rr % (count * 1000) < count * 1000;
            assert(q >= 1) by (nonlinear_arith) requires d == q * 1000, d > 0;
            assert(rr + 1 <= 2 * count * d) by (nonlinear_arith)
                requires rr < (q + 1) * (count * 1000), q >= 1, d == q * 1000, count >= 1;
        } else {
            vstd::arithmetic::div_mod::lemma_fundamental_div_mod(rr, count);
            assert(rr < (d + 1) * count) by (nonlinear_arith)
                requires rr == count * (rr / count) + rr % count, rr % count < count, d == rr / count;
            assert(rr + 1 <= 2 * count * d) by (nonlinear_arith)
                requires rr < (d + 1) * count, d >= 1, count >= 1;
        }
    }
    assert((m * 1000) * (m * 1000) < (3 * count * d) * (3 * count * d)) by (nonlinear_arith)
        requires m * m * 1000000 <= 2 * n + 1, n < (rr + 1) * (rr + 1), rr + 1 <= 2 * count * d, rr >= 0;
    assert(m * 1000 < 3 * count * d) by (nonlinear_arith)
        requires (m * 1000) * (m * 1000) < (3 * count * d) * (3 * count * d), m >= 0, count * d >= 0;
    assert(count * d <= m * 1000) by {
        crate::layout::lemma_dot_size_fits(o, count);
    }
    let a = (m * 1000 - count * d) / (2 * d);
    assert(0 <= a < count) by (nonlinear_arith)
        requires a == (m * 1000 - count * d) / (2 * d), m * 1000 < 3 * count * d, count * d <= m * 1000, d > 0;
}


/// Where the finder pattern in corner column `column` and row `row` (0 or 1 each) starts.
pub open spec fn corner_origin(g: GridLayout, column: int, row: int) -> (int, int) {
    (g.x0 + column * g.dot * (g.count - 7), g.y0 + row * g.dot * (g.count - 7))
}

/// The ring of a finder pattern of side `size` at `(x, y)`, turned by `q` quarter turns: its
/// clip path with its paint, and the element that paints it.
pub open spec fn corner_square_layer(o: QRCodeStylingOptions, id: u64, column: u64, row: u64, q: int,
    x: int, y: int, size: int) -> (Seq<Piece>, Seq<Piece>)
{
    let sq = o.corners_square_options;
    let name = LayerName::CornerSquare(column, row, id);
    let paint = paint_pieces(sq.gradient, sq.color, q, x, y, size, size, name_pieces(name));
    (clip_open_pieces(name) + corner_square_pieces(sq.square_type, x, y, size, q) + clip_close_pieces() + paint.0,
        painted_rect_pieces(seq![un(x)], seq![un(y)], seq![un(size)], seq![un(size)], paint.1, name))
}

/// The center of a finder pattern, of side `size` at `(x, y)`, turned by `q` quarter turns.
pub open spec fn corner_dot_layer(o: QRCodeStylingOptions, id: u64, column: u64, row: u64, q: int,
    x: int, y: int, size: int) -> (Seq<Piece>, Seq<Piece>)
{
    let cd = o.corners_dot_options;
    let name = LayerName::CornerDot(column, row, id);
    let paint = paint_pieces(cd.gradient, cd.color, q, x, y, size, size, name_pieces(name));
    (clip_open_pieces(name) + corner_dot_pieces(cd.dot_type, x, y, size, q) + clip_close_pieces() + paint.0,
        painted_rect_pieces(seq![un(x)], seq![un(y)], seq![un(size)], seq![un(size)], paint.1, name))
}

/// The center of a finder pattern is painted with the corner dots' own color or gradient and
/// shaped by their own type, whatever the rings' options: two sets of options that agree on the
/// corner dots give the same layer, and without a gradient its rectangle is filled with the hex
/// text of the corner dots' color.
pub proof fn lemma_corner_dot_paint(o1: QRCodeStylingOptions, o2: QRCodeStylingOptions, id: u64, column: u64,
    row: u64, q: int, x: int, y: int, size: int)
    ensures
        o1.corners_dot_options.dot_type == o2.corners_dot_options.dot_type
            && o1.corners_dot_options.color == o2.corners_dot_options.color
            && o1.corners_dot_options.gradient == o2.corners_dot_options.gradient
            ==> corner_dot_layer(o1, id, column, row, q, x, y, size) == corner_dot_layer(o2, id, column, row, q, x, y, size),
        o1.corners_dot_options.gradient is None ==> corner_dot_layer(o1, id, column, row, q, x, y, size).1
            == painted_rect_pieces(seq![un(x)], seq![un(y)], seq![un(size)], seq![un(size)],
                crate::paint::color_pieces(o1.corners_dot_options.color), LayerName::CornerDot(column, row, id)),
{
}

/// Likewise the ring of a finder pattern takes only the corner squares' options.
pub proof fn lemma_corner_square_paint(o1: QRCodeStylingOptions, o2: QRCodeStylingOptions, id: u64, column: u64,
    row: u64, q: int, x: int, y: int, size: int)
    ensures
        o1.corners_square_options.square_type == o2.corners_square_options.square_type
            && o1.corners_square_options.color == o2.corners_square_options.color
            && o1.corners_square_options.gradient == o2.corners_square_options.gradient
            ==> corner_square_layer(o1, id, column, row, q, x, y, size) == corner_square_layer(o2, id, column, row, q, x, y, size),
        o1.corners_square_options.gradient is None ==> corner_square_layer(o1, id, column, row, q, x, y, size).1
            == painted_rect_pieces(seq![un(x)], seq![un(y)], seq![un(size)], seq![un(size)],
                crate::paint::color_pieces(o1.corners_square_options.color), LayerName::CornerSquare(column, row, id)),
{
}

/// The layers of one finder pattern, in corner column `column` and row `row` (0 or 1 each),
/// turned by `q` quarter turns: its ring of 7 modules and its center of 3, two modules in.
pub open spec fn corner_pieces(o: QRCodeStylingOptions, g: GridLayout, id: u64, column: u64, row: u64, q: int) -> (Seq<Piece>, Seq<Piece>) {
    let (x, y) = corner_origin(g, column as int, row as int);
    let sq = corner_square_layer(o, id, column, row, q, x, y, 7 * g.dot);
    let dt = corner_dot_layer(o, id, column, row, q, x + 2 * g.dot, y + 2 * g.dot, 3 * g.dot);
    (sq.0 + dt.0, sq.1 + dt.1)
}

/// The three finder patterns: top left, top right (a quarter turn) and bottom left
/// (a quarter turn back).
pub open spec fn corners_pieces(o: QRCodeStylingOptions, g: GridLayout, id: u64) -> (Seq<Piece>, Seq<Piece>) {
    let a = corner_pieces(o, g, id, 0, 0, 0);
    let b = corner_pieces(o, g, id, 1, 0, 1);
    let c = corner_pieces(o, g, id, 0, 1, -1);
    (a.0 + b.0 + c.0, a.1 + b.1 + c.1)
}

/// The character of a base64 digit of the standard alphabet.
pub open spec fn base64_char(v: int) -> char {
    if v < 26 {
        (65 + v) as char
    } else if v < 52 {
        (97 + v - 26) as char
    } else if v < 62 {
        (48 + v - 52) as char
    } else if v == 62 {
        '+'
    } else {
        '/'
    }
}

/// Standard base64 (RFC 4648, with `=` padding) of a sequence of bytes.
pub open spec fn base64_text(d: Seq<u8>) -> Seq<char>
    decreases d.len(),
{
    if d.len() == 0 {
        Seq::empty()
    } else {
        let b0 = d[0] as int;
        let b1 = if d.len() > 1 { d[1] as int } else { 0 };
        let b2 = if d.len() > 2 { d[2] as int } else { 0 };
        let c0 = base64_char(b0 / 4);
        let c1 = base64_char((b0 % 4) * 16 + b1 / 16);
        let c2 = if d.len() > 1 { base64_char((b1 % 16) * 4 + b2 / 64) } else { '=' };
        let c3 = if d.len() > 2 { base64_char(b2 % 64) } else { '=' };
        seq![c0, c1, c2, c3] + (if d.len() > 3 { base64_text(d.skip(3)) } else { Seq::empty() })
    }
}

/// The media type of an image, by its first bytes: PNG, JPEG, WebP, and PNG for anything else.
pub open spec fn mime_type(d: Seq<u8>) -> Seq<char> {
    if d.len() >= 4 && d[0] == 0x89 && d[1] == 0x50 && d[2] == 0x4E && d[3] == 0x47 {
        "image/png"@
    } else if d.len() >= 2 && d[0] == 0xFF && d[1] == 0xD8 {
        "image/jpeg"@
    } else if d.len() > 12 && d[0] == 0x52 && d[1] == 0x49 && d[2] == 0x46 && d[3] == 0x46 && d[8] == 0x57
        && d[9] == 0x45 && d[10] == 0x42 && d[11] == 0x50 {
        "image/webp"@
    } else {
        "image/png"@
    }
}

/// The first bytes of a PNG file.
pub open spec fn starts_as_png(d: Seq<u8>) -> bool {
    d.len() >= 4 && d[0] == 0x89 && d[1] == 0x50 && d[2] == 0x4E && d[3] == 0x47
}

/// The first bytes of a JPEG file.
pub open spec fn starts_as_jpeg(d: Seq<u8>) -> bool {
    d.len() >= 2 && d[0] == 0xFF && d[1] == 0xD8
}

/// The RIFF header of a WebP file: `RIFF`, four bytes of length, `WEBP`, and more.
pub open spec fn starts_as_webp(d: Seq<u8>) -> bool {
    d.len() > 12 && d[0] == 0x52 && d[1] == 0x49 && d[2] == 0x46 && d[3] == 0x46 && d[8] == 0x57
        && d[9] == 0x45 && d[10] == 0x42 && d[11] == 0x50
}

/// An image is labeled by its signature: PNG bytes as `image/png`, JPEG bytes as `image/jpeg`,
/// WebP bytes as `image/webp`, so images of the three formats get three different media types;
/// bytes of none of them are labeled PNG.
pub proof fn lemma_mime_types(png: Seq<u8>, jpeg: Seq<u8>, webp: Seq<u8>, other: Seq<u8>)
    requires
        starts_as_png(png),
        starts_as_jpeg(jpeg),
        starts_as_webp(webp),
        !starts_as_png(other) && !starts_as_jpeg(other) && !starts_as_webp(other),
    ensures
        mime_type(png) == "image/png"@,
        mime_type(jpeg) == "image/jpeg"@,
        mime_type(webp) == "image/webp"@,
        mime_type(other) == "image/png"@,
        mime_type(png) != mime_type(jpeg),
        mime_type(png) != mime_type(webp),
        mime_type(jpeg) != mime_type(webp),
{
    reveal_strlit("image/png");
    reveal_strlit("image/jpeg");
    reveal_strlit("image/webp");
    assert(!starts_as_png(jpeg));
    assert(!starts_as_png(webp) && !starts_as_jpeg(webp));
    assert("image/png"@[6] != "image/webp"@[6]);
    assert("image/png"@.len() != "image/jpeg"@.len());
    assert("image/jpeg"@[6] != "image/webp"@[6]);
}

/// The `<image>` element of an embedded image: centered over the hidden modules, inside its
/// margin, as a base64 data URL.
pub open spec fn image_text(o: QRCodeStylingOptions, g: GridLayout, data: Seq<u8>) -> Seq<char> {
    let w = g.hide_x * g.dot;
    let h = g.hide_y * g.dot;
    let mg = o.image_options.margin * 1000;
    let dx = g.x0 + round_length(o, mg + (g.count * g.dot - w) / 2);
    let dy = g.y0 + round_length(o, mg + (g.count * g.dot - h) / 2);
    let url = "data:"@ + mime_type(data) + ";base64,"@ + base64_text(data);
    "<image href=\""@ + url + "\" xlink:href=\""@ + url + pieces_text(seq![Piece::Lit("\" x=\""), un(dx),
        Piece::Lit("\" y=\""), un(dy), Piece::Lit("\" width=\""), un(w - 2 * mg), Piece::Lit("px\" height=\""),
        un(h - 2 * mg), Piece::Lit("px\"/>\n")])
}

/// The start of the document, up to the opening of its definitions.
pub open spec fn header_pieces(o: QRCodeStylingOptions) -> Seq<Piece> {
    seq![Piece::Lit("<?xml version=\"1.0\" encoding=\"UTF-8\"?>\n<svg xmlns=\"http://www.w3.org/2000/svg\" xmlns:xlink=\"http://www.w3.org/1999/xlink\" width=\""),
        Piece::Nat(o.width as u64), Piece::Lit("\" height=\""), Piece::Nat(o.height as u64),
        Piece::Lit("\" viewBox=\"0 0 "), Piece::Nat(o.width as u64), Piece::Lit(" "), Piece::Nat(o.height as u64),
        Piece::Lit("\""), Piece::Lit(if o.dots_options.round_size { "" } else { " shape-rendering=\"crispEdges\"" }),
        Piece::Lit(">\n<defs>\n")]
}

/// The SVG document of a code: the definitions of the background, dots and finder pattern
/// layers, then the elements that paint them, then the image if there is one.
pub open spec fn svg_text(o: QRCodeStylingOptions, m: QRMatrix, id: u64) -> Seq<char> {
    let g = grid_layout(o, m.side() as int);
    let bg = background_pieces(o, id);
    let dots = dots_layer_pieces(o, m, g, id);
    let corners = corners_pieces(o, g, id);
    pieces_text(header_pieces(o) + bg.0 + dots.0 + corners.0 + seq![Piece::Lit("\n</defs>\n")] + bg.1 + dots.1 + corners.1)
        + (match o.image { Some(data) => image_text(o, g, data@), None => Seq::empty() }) + "\n</svg>"@
}

/// Dots are drawn only on dark modules of the code, never on the rings and centers of its
/// finder patterns, and never behind a background-hiding image.
pub proof fn lemma_dots_only_on_dark_modules(o: QRCodeStylingOptions, m: QRMatrix, count: int, r: int, c: int)
    requires
        drawn(o, m, grid_layout(o, count), r, c),
    ensures
        m.dark(r, c),
        !crate::layout::in_finder_mask(count, r, c),
        !crate::layout::behind_image(o, count, grid_layout(o, count).hide_x, grid_layout(o, count).hide_y, r, c),
{
}

/// Text that starts with a piece opening with the XML declaration and ends with the closing
/// `svg` tag is framed as an SVG document.
proof fn lemma_framed(ps: Seq<Piece>, tail: Seq<char>)
    requires
        ps.len() >= 1,
        piece_text(ps[0]).len() >= 5,
        piece_text(ps[0]).subrange(0, 5) == "<?xml"@,
    ensures
        ({
            let w = pieces_text(ps) + tail + "\n</svg>"@;
            &&& w.len() >= 6
            &&& w.subrange(0, 5) == "<?xml"@
            &&& w.subrange(w.len() - 6, w.len() as int) == "</svg>"@
        }),
{
    let first = seq![ps[0]];
    assert(ps =~= first + ps.drop_first());
    lemma_pieces_text_concat(first, ps.drop_first());
    assert(first.drop_last() =~= Seq::<Piece>::empty());
    assert(pieces_text(first.drop_last()) =~= Seq::<char>::empty());
    assert(first.last() == ps[0]);
    assert(pieces_text(first) =~= piece_text(ps[0]));
    reveal_strlit("\n</svg>");
    reveal_strlit("</svg>");
    let w = pieces_text(ps) + tail + "\n</svg>"@;
    assert(w.subrange(0, 5) =~= piece_text(ps[0]).subrange(0, 5));
    assert(w.subrange(w.len() - 6, w.len() as int) =~= "</svg>"@);
}

/// The header opens with the XML declaration.
proof fn lemma_header_opens(o: QRCodeStylingOptions)
    ensures
        header_pieces(o).len() >= 1,
        piece_text(header_pieces(o)[0]).len() >= 5,
        piece_text(header_pieces(o)[0]).subrange(0, 5) == "<?xml"@,
{
    reveal_strlit("<?xml version=\"1.0\" encoding=\"UTF-8\"?>\n<svg xmlns=\"http://www.w3.org/2000/svg\" xmlns:xlink=\"http://www.w3.org/1999/xlink\" width=\"");
    reveal_strlit("<?xml");
    assert(piece_text(header_pieces(o)[0]).subrange(0, 5) =~= "<?xml"@);
}

/// Every rendered document is an XML document holding one `svg` element: it starts with the
/// XML declaration and ends with the closing tag.
pub proof fn lemma_svg_frame(o: QRCodeStylingOptions, m: QRMatrix, id: u64)
    ensures
        svg_text(o, m, id).len() >= 6,
        svg_text(o, m, id).subrange(0, 5) == "<?xml"@,
        svg_text(o, m, id).subrange(svg_text(o, m, id).len() - 6, svg_text(o, m, id).len() as int) == "</svg>"@,
{
    let g = grid_layout(o, m.side() as int);
    let bg = background_pieces(o, id);
    let dots = dots_layer_pieces(o, m, g, id);
    let corners = corners_pieces(o, g, id);
    let h = header_pieces(o);
    let ps = h + bg.0 + dots.0 + corners.0 + seq![Piece::Lit("\n</defs>\n")] + bg.1 + dots.1 + corners.1;
    let img = match o.image { Some(data) => image_text(o, g, data@), None => Seq::<char>::empty() };
    lemma_header_opens(o);
    assert(ps[0] == h[0]);
    lemma_framed(ps, img);
    assert(svg_text(o, m, id) == pieces_text(ps) + img + "\n</svg>"@);
}

/// Whether a code of `count` modules per side can be laid out with options `o`
/// (see `renderable`).
pub fn can_render(o: &QRCodeStylingOptions, count: usize) -> (r: bool)
    requires
        21 <= count <= 177,
    ensures
        r == renderable(*o, count as int),
{
    let min: u64 = if o.width < o.height { o.width as u64 } else { o.height as u64 };
    if 2 * (o.margin as u64) > min {
        return false;
    }
    if o.shape == ShapeType::Circle && compute_dot_size(o, count) == 0 && 2 * (o.margin as u64) != min {
        return false;
    }
    match &o.image {
        Some(data) => data.len() <= usize::MAX / 2,
        None => true,
    }
}

/// The renderer of one SVG document.
pub struct SvgRenderer<'a> {
    options: &'a QRCodeStylingOptions,
    instance_id: u64,
}

impl<'a> SvgRenderer<'a> {
    /// The options drawn.
    pub closed spec fn opts(&self) -> QRCodeStylingOptions {
        *self.options
    }

    /// The number that makes the ids of this document's definitions unique.
    pub closed spec fn id(&self) -> u64 {
        self.instance_id
    }

    /// A renderer of `options` whose definitions' ids end in `instance_id`.
    pub fn with_instance_id(options: &'a QRCodeStylingOptions, instance_id: u64) -> (r: Self)
        ensures
            r.opts() == *options,
            r.id() == instance_id,
    {
        SvgRenderer { options, instance_id }
    }


    /// A renderer of `options`, with a fresh random number to tell the ids of its definitions
    /// apart from those of other documents.
    pub fn new(options: &'a QRCodeStylingOptions) -> (r: Self)
        ensures
            r.opts() == *options,
    {
        let state = fresh_random_state();
        let id = random_state_number(&state);
        SvgRenderer::with_instance_id(options, id)
    }

    /// Renders the code of `matrix` as an SVG document (see `svg_text`).
    #[verifier::spinoff_prover]
    #[verifier::rlimit(40)]
    pub fn render(&self, matrix: &QRMatrix) -> (r: Result<String, QRError>)
        requires
            renderable(self.opts(), matrix.side() as int),
        ensures
            r matches Ok(s) && s@ == svg_text(self.opts(), *matrix, self.id()),
    {
        let o = self.options;
        let count = matrix.module_count();
        let ghost g = grid_layout(*o, count as int);
        let dot = compute_dot_size(o, count);
        proof { crate::layout::lemma_dot_size_fits(*o, count as int); }
        let xb = compute_origin(o, count, dot, o.width);
        let yb = compute_origin(o, count, dot, o.height);
        assert(count * count <= 177 * 177) by (nonlinear_arith) requires count <= 177;
        let (hx, hy) = if o.image.is_some() { calculate_image_hide_area(o, count) } else { (0, 0) };
        let (mut bg_defs, mut bg_els) = self.render_background();
        proof {
            lemma_layout_in_bounds(*o, count as int);
            if o.shape == ShapeType::Circle {
                lemma_extra_dots_bound(*o, count as int);
                let fs = fake_side(*o, g);
                assert(fs * fs <= 531 * 531) by (nonlinear_arith) requires 0 <= fs <= 531;
            }
        }
        let (mut dots_defs, mut dots_els) = self.render_dots(matrix, Ghost(g), count, dot, xb, yb, hx, hy);
        let (mut c_defs, mut c_els) = self.render_corners(Ghost(g), count, dot, xb, yb);
        let shape_rendering = if o.dots_options.round_size { "" } else { " shape-rendering=\"crispEdges\"" };
        let mut doc = vec![Piece::Lit("<?xml version=\"1.0\" encoding=\"UTF-8\"?>\n<svg xmlns=\"http://www.w3.org/2000/svg\" xmlns:xlink=\"http://www.w3.org/1999/xlink\" width=\""),
            Piece::Nat(o.width as u64), Piece::Lit("\" height=\""), Piece::Nat(o.height as u64),
            Piece::Lit("\" viewBox=\"0 0 "), Piece::Nat(o.width as u64), Piece::Lit(" "), Piece::Nat(o.height as u64),
            Piece::Lit("\""), Piece::Lit(shape_rendering), Piece::Lit(">\n<defs>\n")];
        doc.append(&mut bg_defs);
        doc.append(&mut dots_defs);
        doc.append(&mut c_defs);
        let mut mid = vec![Piece::Lit("\n</defs>\n")];
        doc.append(&mut mid);
        doc.append(&mut bg_els);
        doc.append(&mut dots_els);
        doc.append(&mut c_els);
        let mut s = pieces_to_string(&doc);
        let ghost head = s@;
        match &o.image {
            Some(data) => {
                let img = self.render_image(Ghost(g), count, dot, xb, yb, hx, hy, data);
                s.append(img.as_str());
            },
            None => {},
        }
        s.append("\n</svg>");
        proof {
            let ghost bg = background_pieces(*o, self.id());
            let ghost dots = dots_layer_pieces(*o, *matrix, g, self.id());
            let ghost corners = corners_pieces(*o, g, self.id());
            assert(doc@ =~= header_pieces(*o) + bg.0 + dots.0 + corners.0 + seq![Piece::Lit("\n</defs>\n")] + bg.1
                + dots.1 + corners.1);
            assert(s@ =~= svg_text(self.opts(), *matrix, self.id()));
        }
        Ok(s)
    }

    fn render_background(&self) -> (r: (Vec<Piece>, Vec<Piece>))
        ensures
            (r.0@, r.1@) == background_pieces(self.opts(), self.id()),
    {
        let o = self.options;
        let bg = &o.background_options;
        let name = LayerName::Background(self.instance_id);
        let min: u32 = if o.width < o.height { o.width } else { o.height };
        let (bw, bh): (u32, u32) = if bg.round > 0 { (min, min) } else { (o.width, o.height) };
        let vx = ((o.width - bw) as i128) * 1000 / 2;
        let vy = ((o.height - bh) as i128) * 1000 / 2;
        let bx = if o.dots_options.round_size { (vx / 1000) * 1000 } else { vx };
        let by = if o.dots_options.round_size { (vy / 1000) * 1000 } else { vy };
        assert((bh as i128) * (bg.round as i128) <= 0xffff_ffff * 0xffff_ffff) by (nonlinear_arith)
            requires bh <= 0xffff_ffff, bg.round <= 0xffff_ffff;
        let rx: i128 = if bg.round > 0 { (bh as i128) * (bg.round as i128) / 2 } else { 0 };
        let (mut pdefs, pfill) = create_color(bg.gradient.as_ref(), &bg.color, 0, 0, 0, (o.height as i128) * 1000,
            (o.width as i128) * 1000, name);
        let mut defs = vec![Piece::Lit("<clipPath id=\"clip-path-")];
        let mut nm = make_name(name);
        defs.append(&mut nm);
        let mut rect = vec![Piece::Lit("\"><rect x=\""), Piece::Units(bx), Piece::Lit("\" y=\""), Piece::Units(by),
            Piece::Lit("\" width=\""), Piece::Nat(bw as u64), Piece::Lit("\" height=\""), Piece::Nat(bh as u64),
            Piece::Lit("\"")];
        defs.append(&mut rect);
        if rx > 0 {
            let mut r = vec![Piece::Lit(" rx=\""), Piece::Units(rx), Piece::Lit("\"")];
            defs.append(&mut r);
        }
        let mut close = vec![Piece::Lit("/></clipPath>\n")];
        defs.append(&mut close);
        defs.append(&mut pdefs);
        let els = self.canvas_rect(pfill, name);
        proof {
            let ghost spec = background_pieces(self.opts(), self.id());
            assert(defs@ =~= spec.0);
        }
        (defs, els)
    }


    /// Whether the module at `(row + dy, col + dx)` gets a dot, from the set of drawn modules.
    fn drawn_at(
        &self,
        Ghost(m): Ghost<QRMatrix>,
        Ghost(g): Ghost<GridLayout>,
        set: &fixedbitset::FixedBitSet,
        count: usize,
        row: usize,
        col: usize,
        dx: i64,
        dy: i64,
    ) -> (b: bool)
        requires
            g.count == count,
            21 <= count <= 177,
            row < count,
            col < count,
            -1 <= dx <= 1,
            -1 <= dy <= 1,
            bitset_len(*set) == count * count,
            forall|k: int| 0 <= k < count * count ==> (#[trigger] bitset_members(*set).contains(k as usize)
                <==> drawn(self.opts(), m, g, k / (count as int), k % (count as int))),
        ensures
            b == drawn(self.opts(), m, g, row + dy, col + dx),
    {
        let nr = row as i64 + dy;
        let nc = col as i64 + dx;
        if nr < 0 || nc < 0 || nr >= count as i64 || nc >= count as i64 {
            return false;
        }
        proof {
            lemma_index(nr as int, nc as int, count as int);
            assert(nr * count + nc < count * count) by (nonlinear_arith)
                requires 0 <= nr < count, 0 <= nc < count;
            assert(count * count <= 177 * 177) by (nonlinear_arith) requires count <= 177;
        }
        let k = (nr as usize) * count + (nc as usize);
        bitset_contains(set, k)
    }

    fn render_dot_grid(
        &self,
        matrix: &QRMatrix,
        Ghost(g): Ghost<GridLayout>,
        count: usize,
        dot: i64,
        xb: i64,
        yb: i64,
        hx: usize,
        hy: usize,
    ) -> (v: Vec<Piece>)
        requires
            g == (GridLayout { count: count as int, dot: dot as int, x0: xb as int, y0: yb as int, hide_x: hx as int, hide_y: hy as int }),
            grid_in_bounds(g),
            count == matrix.side(),
            hx <= count,
            hy <= count,
        ensures
            v@ == grid_pieces(self.opts(), *matrix, g, count as int),
    {
        let o = self.options;
        let ghost m = *matrix;
        let side = matrix.module_count();
        proof {
            assert(count * count <= 177 * 177) by (nonlinear_arith) requires count <= 177;
        }
        let mut set = bitset_with_capacity(count * count);
        let mut row: usize = 0;
        while row < count
            invariant
                row <= count,
                21 <= count <= 177,
                count == g.count,
                hx == g.hide_x, hy == g.hide_y, hx <= count, hy <= count,
                count == matrix.side(),
                m == *matrix,
                *o == self.opts(),
                bitset_len(set) == count * count,
                forall|k: int| 0 <= k < count * count ==> (#[trigger] bitset_members(set).contains(k as usize)
                    <==> (k < row * count && drawn(self.opts(), m, g, k / (count as int), k % (count as int)))),
            decreases count - row,
        {
            let mut col: usize = 0;
            while col < count
                invariant
                    row < count,
                    col <= count,
                    21 <= count <= 177,
                    count == g.count,
                    hx == g.hide_x, hy == g.hide_y, hx <= count, hy <= count,
                    count == matrix.side(),
                    m == *matrix,
                    *o == self.opts(),
                    bitset_len(set) == count * count,
                    forall|k: int| 0 <= k < count * count ==> (#[trigger] bitset_members(set).contains(k as usize)
                        <==> (k < row * count + col && drawn(self.opts(), m, g, k / (count as int), k % (count as int)))),
                decreases count - col,
            {
                proof {
                    lemma_index(row as int, col as int, count as int);
                    assert(row * count + col < count * count) by (nonlinear_arith)
                        requires row < count, col < count;
                    assert(count * count <= 177 * 177) by (nonlinear_arith) requires count <= 177;
                }
                let k = row * count + col;
                let draw = should_draw_dot(o, row, col, count, hx, hy) && matrix.is_dark(row, col);
                assert(draw == drawn(self.opts(), m, g, row as int, col as int));
                let ghost before = bitset_members(set);
                if draw {
                    bitset_insert(&mut set, k);
                }
                proof {
                    assert(draw ==> bitset_members(set) == before.insert(k));
                    assert(!draw ==> bitset_members(set) == before);
                    assert forall|j: int| 0 <= j < count * count implies (#[trigger] bitset_members(set).contains(j as usize)
                        <==> (j < row * count + col + 1 && drawn(self.opts(), m, g, j / (count as int), j % (count as int)))) by {
                        if j == k as int {
                            assert(j / (count as int) == row && j % (count as int) == col);
                        }
                    }
                }
                col = col + 1;
            }
            proof {
                assert((row + 1) * count == row * count + count) by (nonlinear_arith);
            }
            row = row + 1;
        }
        assert(row * count == count * count);
        let dot_drawer = QRDot::new(o.dots_options.dot_type);
        let mut v: Vec<Piece> = Vec::new();
        let mut row: usize = 0;
        while row < count
            invariant
                row <= count,
                21 <= count <= 177,
                grid_in_bounds(g),
                count == g.count, dot == g.dot, xb == g.x0, yb == g.y0,
                count == matrix.side(),
                m == *matrix,
                *o == self.opts(),
                dot_drawer.dot_type == o.dots_options.dot_type,
                bitset_len(set) == count * count,
                forall|k: int| 0 <= k < count * count ==> (#[trigger] bitset_members(set).contains(k as usize)
                    <==> drawn(self.opts(), m, g, k / (count as int), k % (count as int))),
                v@ == grid_pieces(self.opts(), m, g, row as int),
            decreases count - row,
        {
            let mut col: usize = 0;
            while col < count
                invariant
                    row < count,
                    col <= count,
                    21 <= count <= 177,
                    grid_in_bounds(g),
                    count == g.count, dot == g.dot, xb == g.x0, yb == g.y0,
                    count == matrix.side(),
                    m == *matrix,
                    *o == self.opts(),
                    dot_drawer.dot_type == o.dots_options.dot_type,
                    bitset_len(set) == count * count,
                    forall|k: int| 0 <= k < count * count ==> (#[trigger] bitset_members(set).contains(k as usize)
                        <==> drawn(self.opts(), m, g, k / (count as int), k % (count as int))),
                    v@ == grid_pieces(self.opts(), m, g, row as int) + row_pieces(self.opts(), m, g, row as int, col as int),
                decreases count - col,
            {
                let here = self.drawn_at(Ghost(m), Ghost(g), &set, count, row, col, 0, 0);
                let ghost before = v@;
                if here {
                    let nb = Neighbors {
                        left: self.drawn_at(Ghost(m), Ghost(g), &set, count, row, col, -1, 0),
                        right: self.drawn_at(Ghost(m), Ghost(g), &set, count, row, col, 1, 0),
                        top: self.drawn_at(Ghost(m), Ghost(g), &set, count, row, col, 0, -1),
                        bottom: self.drawn_at(Ghost(m), Ghost(g), &set, count, row, col, 0, 1),
                    };
                    proof {
                        assert(col * dot <= count * dot) by (nonlinear_arith) requires col < count, dot >= 0;
                        assert(row * dot <= count * dot) by (nonlinear_arith) requires row < count, dot >= 0;
                        assert(dot <= count * dot) by (nonlinear_arith) requires count >= 1, dot >= 0;
                    }
                    let x = xb + (col as i64) * dot;
                    let y = yb + (row as i64) * dot;
                    let mut fig = dot_drawer.draw(x, y, dot, nb);
                    v.append(&mut fig);
                    let mut nl = vec![Piece::Lit("\n")];
                    v.append(&mut nl);
                    assert(nb == drawn_neighbors(self.opts(), m, g, row as int, col as int));
                    assert(cell_pieces(self.opts(), m, g, row as int, col as int) == dot_pieces(o.dots_options.dot_type,
                        x as int, y as int, dot as int, nb) + seq![Piece::Lit("\n")]);
                    assert(v@ =~= before + cell_pieces(self.opts(), m, g, row as int, col as int));
                } else {
                    assert(cell_pieces(self.opts(), m, g, row as int, col as int) =~= Seq::<Piece>::empty());
                }
                assert(v@ =~= grid_pieces(self.opts(), m, g, row as int) + row_pieces(self.opts(), m, g, row as int, col + 1));
                col = col + 1;
            }
            assert(v@ =~= grid_pieces(self.opts(), m, g, row + 1));
            row = row + 1;
        }
        v
    }


    #[verifier::spinoff_prover]
    #[verifier::rlimit(60)]
    fn render_fake_grid(
        &self,
        matrix: &QRMatrix,
        Ghost(g): Ghost<GridLayout>,
        count: usize,
        dot: i64,
        xb: i64,
        yb: i64,
    ) -> (v: Vec<Piece>)
        requires
            g == (GridLayout { count: count as int, dot: dot as int, x0: xb as int, y0: yb as int, hide_x: g.hide_x, hide_y: g.hide_y }),
            grid_in_bounds(g),
            count == matrix.side(),
            code_side(self.opts()) >= 0,
            fake_side(self.opts(), g) * fake_side(self.opts(), g) <= usize::MAX,
        ensures
            v@ == fake_grid_pieces(self.opts(), *matrix, g, fake_side(self.opts(), g)),
    {
        let o = self.options;
        let ghost m = *matrix;
        let n_side = matrix.module_count();
        let min: u64 = if o.width < o.height { o.width as u64 } else { o.height as u64 };
        let side: u64 = min - 2 * (o.margin as u64);
        assert(side as int == code_side(*o));
        let cd: i64 = (count as i64) * dot;
        let num: i64 = (side as i64) * 1000 - cd;
        assert(num == code_side(*o) * 1000 - g.count * g.dot);
        let a_wide: i64 = if dot == 0 || num < 0 { 0 } else { num / (2 * dot) };
        proof {
            if dot > 0 && num >= 0 {
                let ni = num as int;
                let di = 2 * (dot as int);
                vstd::arithmetic::div_mod::lemma_fundamental_div_mod(ni, di);
                assert(0 <= 2 * a_wide * dot <= num) by (nonlinear_arith)
                    requires ni == di * (ni / di) + ni % di, 0 <= ni % di, a_wide == ni / di, di == 2 * dot, dot > 0,
                        ni == num, num >= 0;
            }
            assert(0 <= a_wide * dot <= side * 500) by (nonlinear_arith)
                requires 0 <= 2 * a_wide * dot <= (if dot > 0 && num >= 0 { num } else { 0 }), num <= side * 1000,
                    dot >= 0;
        }
        assert(a_wide == extra_dots(*o, g));
        let ghost fs = fake_side(*o, g);
        proof {
            assert(0 <= fs);
            assert(fs <= fs * fs) by (nonlinear_arith) requires fs >= 0;
            assert(fs <= 0x1_0000_0000) by (nonlinear_arith) requires fs * fs <= 0xffff_ffff_ffff_ffff, fs >= 0;
        }
        let a: usize = a_wide as usize;
        let f: usize = count + 2 * a;
        assert(f == fake_side(*o, g));
        let low: usize = if a >= 1 { a - 1 } else { 0 };
        proof {
            assert(f * dot == count * dot + 2 * (a * dot)) by (nonlinear_arith) requires f == count + 2 * a;
        }
        let xf = xb - (a as i64) * dot;
        let yf = yb - (a as i64) * dot;
        let dot_drawer = QRDot::new(o.dots_options.dot_type);
        let mut v: Vec<Piece> = Vec::new();
        let mut row: usize = 0;
        while row < f
            invariant
                row <= f,
                f == fake_side(*o, g),
                f * f <= usize::MAX,
                f <= 0x1_0000_0000,
                a == extra_dots(*o, g),
                low == (if a >= 1 { a - 1 } else { 0 }),
                f == count + 2 * a,
                grid_in_bounds(g),
                *o == self.opts(),
                count == g.count, dot == g.dot, xb == g.x0, yb == g.y0,
                0 <= a * dot <= 0xffff_ffff * 500,
                f * dot == count * dot + 2 * (a * dot),
                xf == xb - a * dot, yf == yb - a * dot,
                count == matrix.side(),
                m == *matrix,
                dot_drawer.dot_type == o.dots_options.dot_type,
                v@ == fake_grid_pieces(self.opts(), m, g, row as int),
            decreases f - row,
        {
            let mut col: usize = 0;
            while col < f
                invariant
                    row < f,
                    col <= f,
                    f == fake_side(*o, g),
                    f * f <= usize::MAX,
                    f <= 0x1_0000_0000,
                    a == extra_dots(*o, g),
                    low == (if a >= 1 { a - 1 } else { 0 }),
                    f == count + 2 * a,
                    grid_in_bounds(g),
                    *o == self.opts(),
                    count == g.count, dot == g.dot, xb == g.x0, yb == g.y0,
                    0 <= a * dot <= 0xffff_ffff * 500,
                    f * dot == count * dot + 2 * (a * dot),
                    xf == xb - a * dot, yf == yb - a * dot,
                    count == matrix.side(),
                    m == *matrix,
                    dot_drawer.dot_type == o.dots_options.dot_type,
                    v@ == fake_grid_pieces(self.opts(), m, g, row as int) + fake_row_pieces(self.opts(), m, g, row as int, col as int),
                decreases f - col,
            {
                let inner = row >= low && row <= f - a && col >= low && col <= f - a;
                proof {
                    assert(f <= f * f) by (nonlinear_arith) requires f >= 0;
                }
                let dr: i128 = 2 * (row as i128) - (f as i128);
                let dc: i128 = 2 * (col as i128) - (f as i128);
                proof {
                    assert(dr * dr <= f * f) by (nonlinear_arith) requires -f <= dr <= f;
                    assert(dc * dc <= f * f) by (nonlinear_arith) requires -f <= dc <= f;
                    assert(0 <= dr * dr) by (nonlinear_arith);
                    assert(0 <= dc * dc) by (nonlinear_arith);
                }
                let outside = dr * dr + dc * dc > (f as i128) * (f as i128);
                let sr: usize = if row < 2 * a { row } else if row >= count { row - 2 * a } else { row - a };
                let sc: usize = if col < 2 * a { col } else if col >= count { col - 2 * a } else { col - a };
                let draw = !inner && !outside && sr < count && sc < count && matrix.is_dark(sr, sc);
                assert(draw == fake_drawn(self.opts(), m, g, row as int, col as int));
                let ghost before = v@;
                if draw {
                    let nb = Neighbors { left: col >= 1, right: col + 1 < f, top: row >= 1, bottom: row + 1 < f };
                    proof {
                        assert(col * dot <= f * dot) by (nonlinear_arith) requires col < f, dot >= 0;
                        assert(row * dot <= f * dot) by (nonlinear_arith) requires row < f, dot >= 0;
                        assert(0 <= col * dot) by (nonlinear_arith) requires dot >= 0;
                        assert(0 <= row * dot) by (nonlinear_arith) requires dot >= 0;
                    }
                    let x = xf + (col as i64) * dot;
                    let y = yf + (row as i64) * dot;
                    let fig0 = dot_drawer.draw(x, y, dot, nb);
                    let ghost fig = fig0;
                    let mut fig1 = fig0;
                    v.append(&mut fig1);
                    let mut nl = vec![Piece::Lit("\n")];
                    v.append(&mut nl);
                    assert(nb == fake_neighbors(f as int, row as int, col as int));
                    assert(fig@ == dot_pieces(self.opts().dots_options.dot_type, x as int, y as int, dot as int, nb));
                    assert(v@ =~= before + fake_cell_pieces(self.opts(), m, g, row as int, col as int));
                } else {
                    assert(fake_cell_pieces(self.opts(), m, g, row as int, col as int) =~= Seq::<Piece>::empty());
                }
                assert(v@ =~= fake_grid_pieces(self.opts(), m, g, row as int) + fake_row_pieces(self.opts(), m, g, row as int, col + 1));
                col = col + 1;
            }
            assert(v@ =~= fake_grid_pieces(self.opts(), m, g, row + 1));
            row = row + 1;
        }
        v
    }

    fn render_dots(
        &self,
        matrix: &QRMatrix,
        Ghost(g): Ghost<GridLayout>,
        count: usize,
        dot: i64,
        xb: i64,
        yb: i64,
        hx: usize,
        hy: usize,
    ) -> (r: (Vec<Piece>, Vec<Piece>))
        requires
            g == (GridLayout { count: count as int, dot: dot as int, x0: xb as int, y0: yb as int, hide_x: hx as int, hide_y: hy as int }),
            grid_in_bounds(g),
            count == matrix.side(),
            hx <= count,
            hy <= count,
            self.opts().shape == ShapeType::Circle ==> {
                &&& code_side(self.opts()) >= 0
                &&& fake_side(self.opts(), g) * fake_side(self.opts(), g) <= usize::MAX
            },
        ensures
            (r.0@, r.1@) == dots_layer_pieces(self.opts(), *matrix, g, self.id()),
    {
        let o = self.options;
        let name = LayerName::Dots(self.instance_id);
        let mut defs = vec![Piece::Lit("<clipPath id=\"clip-path-")];
        let mut nm = make_name(name);
        defs.append(&mut nm);
        let mut open_end = vec![Piece::Lit("\">\n")];
        defs.append(&mut open_end);
        let mut grid = self.render_dot_grid(matrix, Ghost(g), count, dot, xb, yb, hx, hy);
        defs.append(&mut grid);
        let ghost before_extra = defs@;
        if o.shape == ShapeType::Circle {
            let mut extra = self.render_fake_grid(matrix, Ghost(g), count, dot, xb, yb);
            defs.append(&mut extra);
        }
        let mut close = vec![Piece::Lit("\n</clipPath>\n")];
        defs.append(&mut close);
        let (mut pdefs, pfill) = create_color(o.dots_options.gradient.as_ref(), &o.dots_options.color, 0, 0, 0,
            (o.height as i128) * 1000, (o.width as i128) * 1000, name);
        defs.append(&mut pdefs);
        let els = self.canvas_rect(pfill, name);
        assert(defs@ =~= dots_layer_pieces(self.opts(), *matrix, g, self.id()).0);
        (defs, els)
    }

    fn render_corner_square(&self, column: u64, row: u64, q: i64, x: i64, y: i64, size: i64)
        -> (r: (Vec<Piece>, Vec<Piece>))
        requires
            figure_in_bounds(x as int, y as int, size as int),
            -1 <= q <= 1,
        ensures
            (r.0@, r.1@) == corner_square_layer(self.opts(), self.id(), column, row, q as int, x as int, y as int, size as int),
    {
        let sq = &self.options.corners_square_options;
        let name = LayerName::CornerSquare(column, row, self.instance_id);
        let (mut pdefs, fill) = create_color(sq.gradient.as_ref(), &sq.color, q, x as i128, y as i128,
            size as i128, size as i128, name);
        let mut defs = vec![Piece::Lit("<clipPath id=\"clip-path-")];
        let mut nm = make_name(name);
        defs.append(&mut nm);
        let mut open_end = vec![Piece::Lit("\">\n")];
        defs.append(&mut open_end);
        let mut fig = QRCornerSquare::new(sq.square_type).draw(x, y, size, q);
        defs.append(&mut fig);
        let mut close = vec![Piece::Lit("\n</clipPath>\n")];
        defs.append(&mut close);
        defs.append(&mut pdefs);
        let els = self.painted_rect(x as i128, y as i128, size as i128, fill, name);
        assert(defs@ =~= corner_square_layer(self.opts(), self.id(), column, row, q as int, x as int, y as int, size as int).0);
        (defs, els)
    }

    fn render_corner_dot(&self, column: u64, row: u64, q: i64, x: i64, y: i64, size: i64)
        -> (r: (Vec<Piece>, Vec<Piece>))
        requires
            figure_in_bounds(x as int, y as int, size as int),
            -1 <= q <= 1,
        ensures
            (r.0@, r.1@) == corner_dot_layer(self.opts(), self.id(), column, row, q as int, x as int, y as int, size as int),
    {
        let cd = &self.options.corners_dot_options;
        let name = LayerName::CornerDot(column, row, self.instance_id);
        let (mut pdefs, fill) = create_color(cd.gradient.as_ref(), &cd.color, q, x as i128, y as i128,
            size as i128, size as i128, name);
        let mut defs = vec![Piece::Lit("<clipPath id=\"clip-path-")];
        let mut nm = make_name(name);
        defs.append(&mut nm);
        let mut open_end = vec![Piece::Lit("\">\n")];
        defs.append(&mut open_end);
        let mut fig = QRCornerDot::new(cd.dot_type).draw(x, y, size, q);
        defs.append(&mut fig);
        let mut close = vec![Piece::Lit("\n</clipPath>\n")];
        defs.append(&mut close);
        defs.append(&mut pdefs);
        let els = self.painted_rect(x as i128, y as i128, size as i128, fill, name);
        assert(defs@ =~= corner_dot_layer(self.opts(), self.id(), column, row, q as int, x as int, y as int, size as int).0);
        (defs, els)
    }

    fn render_corner(&self, Ghost(g): Ghost<GridLayout>, count: usize, dot: i64, xb: i64, yb: i64, column: u64, row: u64, q: i64)
        -> (r: (Vec<Piece>, Vec<Piece>))
        requires
            g == (GridLayout { count: count as int, dot: dot as int, x0: xb as int, y0: yb as int, hide_x: g.hide_x, hide_y: g.hide_y }),
            grid_in_bounds(g),
            count >= 7,
            column <= 1,
            row <= 1,
            -1 <= q <= 1,
        ensures
            (r.0@, r.1@) == corner_pieces(self.opts(), g, self.id(), column, row, q as int),
    {
        proof {
            assert(column * dot * (count - 7) <= count * dot) by (nonlinear_arith)
                requires column <= 1, dot >= 0, count >= 7;
            assert(row * dot * (count - 7) <= count * dot) by (nonlinear_arith)
                requires row <= 1, dot >= 0, count >= 7;
            assert(0 <= column * dot * (count - 7)) by (nonlinear_arith) requires dot >= 0, count >= 7;
            assert(0 <= row * dot * (count - 7)) by (nonlinear_arith) requires dot >= 0, count >= 7;
            assert(7 * dot <= count * dot) by (nonlinear_arith) requires dot >= 0, count >= 7;
            if dot > 0 {
                assert(count <= count * dot) by (nonlinear_arith) requires dot >= 1, count >= 0;
            }
        }
        let k: i64 = if dot == 0 { 0 } else { (count - 7) as i64 };
        assert(dot > 0 ==> k == count - 7);
        assert(dot * k == dot * (count - 7)) by (nonlinear_arith)
            requires dot > 0 ==> k == count - 7, dot == 0 ==> k == 0, dot >= 0;
        let x = xb + (column as i64) * dot * k;
        let y = yb + (row as i64) * dot * k;
        let (mut d1, mut e1) = self.render_corner_square(column, row, q, x, y, 7 * dot);
        let (mut d2, mut e2) = self.render_corner_dot(column, row, q, x + 2 * dot, y + 2 * dot, 3 * dot);
        d1.append(&mut d2);
        e1.append(&mut e2);
        (d1, e1)
    }

    fn render_corners(&self, Ghost(g): Ghost<GridLayout>, count: usize, dot: i64, xb: i64, yb: i64)
        -> (r: (Vec<Piece>, Vec<Piece>))
        requires
            g == (GridLayout { count: count as int, dot: dot as int, x0: xb as int, y0: yb as int, hide_x: g.hide_x, hide_y: g.hide_y }),
            grid_in_bounds(g),
            count >= 7,
        ensures
            (r.0@, r.1@) == corners_pieces(self.opts(), g, self.id()),
    {
        let (mut d1, mut e1) = self.render_corner(Ghost(g), count, dot, xb, yb, 0, 0, 0);
        let (mut d2, mut e2) = self.render_corner(Ghost(g), count, dot, xb, yb, 1, 0, 1);
        let (mut d3, mut e3) = self.render_corner(Ghost(g), count, dot, xb, yb, 0, 1, -1);
        d1.append(&mut d2);
        d1.append(&mut d3);
        e1.append(&mut e2);
        e1.append(&mut e3);
        (d1, e1)
    }

    fn painted_rect(&self, x: i128, y: i128, size: i128, fill: Vec<Piece>, name: LayerName) -> (r: Vec<Piece>)
        ensures
            r@ == painted_rect_pieces(seq![Piece::Units(x)], seq![Piece::Units(y)], seq![Piece::Units(size)],
                seq![Piece::Units(size)], fill@, name),
    {
        let ghost f0 = fill@;
        let mut fill = fill;
        let mut v = vec![Piece::Lit("<rect x=\""), Piece::Units(x), Piece::Lit("\" y=\""), Piece::Units(y),
            Piece::Lit("\" width=\""), Piece::Units(size), Piece::Lit("\" height=\""), Piece::Units(size),
            Piece::Lit("\" fill=\"")];
        v.append(&mut fill);
        let mut mid = vec![Piece::Lit("\" clip-path=\"url(#clip-path-")];
        v.append(&mut mid);
        let mut nm = make_name(name);
        v.append(&mut nm);
        let mut end = vec![Piece::Lit(")\"/>\n")];
        v.append(&mut end);
        assert(v@ =~= painted_rect_pieces(seq![Piece::Units(x)], seq![Piece::Units(y)], seq![Piece::Units(size)],
            seq![Piece::Units(size)], f0, name));
        v
    }


    /// The media type of an image, by its first bytes (see `mime_type`).
    fn detect_mime_type(data: &Vec<u8>) -> (r: &'static str)
        ensures
            r@ == mime_type(data@),
    {
        let n = data.len();
        if n >= 4 && data[0] == 0x89 && data[1] == 0x50 && data[2] == 0x4E && data[3] == 0x47 {
            "image/png"
        } else if n >= 2 && data[0] == 0xFF && data[1] == 0xD8 {
            "image/jpeg"
        } else if n > 12 && data[0] == 0x52 && data[1] == 0x49 && data[2] == 0x46 && data[3] == 0x46 && data[8] == 0x57
            && data[9] == 0x45 && data[10] == 0x42 && data[11] == 0x50 {
            "image/webp"
        } else {
            "image/png"
        }
    }

    fn render_image(
        &self,
        Ghost(g): Ghost<GridLayout>,
        count: usize,
        dot: i64,
        xb: i64,
        yb: i64,
        hx: usize,
        hy: usize,
        data: &Vec<u8>,
    ) -> (s: String)
        requires
            g == (GridLayout { count: count as int, dot: dot as int, x0: xb as int, y0: yb as int, hide_x: hx as int, hide_y: hy as int }),
            grid_in_bounds(g),
            hx <= count,
            hy <= count,
            data@.len() <= usize::MAX / 2,
        ensures
            s@ == image_text(self.opts(), g, data@),
    {
        let o = self.options;
        proof {
            assert(hx * dot <= count * dot) by (nonlinear_arith) requires hx <= count, dot >= 0;
            assert(hy * dot <= count * dot) by (nonlinear_arith) requires hy <= count, dot >= 0;
            assert(0 <= hx * dot) by (nonlinear_arith) requires dot >= 0;
            assert(0 <= hy * dot) by (nonlinear_arith) requires dot >= 0;
        }
        let cd = (count as i128) * (dot as i128);
        let w = (hx as i128) * (dot as i128);
        let h = (hy as i128) * (dot as i128);
        let mg = (o.image_options.margin as i128) * 1000;
        let vx = mg + (cd - w) / 2;
        let vy = mg + (cd - h) / 2;
        let rx = if o.dots_options.round_size { (vx / 1000) * 1000 } else { vx };
        let ry = if o.dots_options.round_size { (vy / 1000) * 1000 } else { vy };
        let dx = xb as i128 + rx;
        let dy = yb as i128 + ry;
        let mut url = String::new();
        url.append("data:");
        url.append(Self::detect_mime_type(data));
        url.append(";base64,");
        let b64 = base64_standard_encode(data.as_slice());
        url.append(b64.as_str());
        let mut s = String::new();
        s.append("<image href=\"");
        s.append(url.as_str());
        s.append("\" xlink:href=\"");
        s.append(url.as_str());
        let tail = vec![Piece::Lit("\" x=\""), Piece::Units(dx), Piece::Lit("\" y=\""), Piece::Units(dy),
            Piece::Lit("\" width=\""), Piece::Units(w - 2 * mg), Piece::Lit("px\" height=\""), Piece::Units(h - 2 * mg),
            Piece::Lit("px\"/>\n")];
        let t = pieces_to_string(&tail);
        s.append(t.as_str());
        proof {
            let ghost spec_url = "data:"@ + mime_type(data@) + ";base64,"@ + base64_text(data@);
            assert(url@ =~= spec_url);
            assert(tail@ =~= seq![Piece::Lit("\" x=\""), un(dx as int), Piece::Lit("\" y=\""), un(dy as int),
                Piece::Lit("\" width=\""), un((w - 2 * mg) as int), Piece::Lit("px\" height=\""), un((h - 2 * mg) as int),
                Piece::Lit("px\"/>\n")]);
            assert(s@ =~= image_text(self.opts(), g, data@));
        }
        s
    }

    fn canvas_rect(&self, fill: Vec<Piece>, name: LayerName) -> (r: Vec<Piece>)
        ensures
            r@ == canvas_rect_pieces(self.opts(), fill@, name),
    {
        let ghost f0 = fill@;
        let mut fill = fill;
        let mut v = vec![Piece::Lit("<rect x=\""), Piece::Lit("0"), Piece::Lit("\" y=\""), Piece::Lit("0"),
            Piece::Lit("\" width=\""), Piece::Nat(self.options.width as u64), Piece::Lit("\" height=\""),
            Piece::Nat(self.options.height as u64), Piece::Lit("\" fill=\"")];
        v.append(&mut fill);
        let mut mid = vec![Piece::Lit("\" clip-path=\"url(#clip-path-")];
        v.append(&mut mid);
        let mut nm = make_name(name);
        v.append(&mut nm);
        let mut end = vec![Piece::Lit(")\"/>\n")];
        v.append(&mut end);
        assert(v@ =~= canvas_rect_pieces(self.opts(), f0, name));
        v
    }
}

} // verus!
