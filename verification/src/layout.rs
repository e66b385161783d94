//! Layout of a code on its canvas: module size, origins, the area hidden behind an image,
//! the modules that are drawn as dots, and the extra dots around a circular code.
//! Lengths are held in thousandths of a pixel.
use vstd::prelude::*;
use crate::config::QRCodeStylingOptions;
use crate::qr_matrix::{finder_region_of, FinderRegion};
use crate::types::{recovery_percent, ShapeType};

verus! {

/// Thousandths of a pixel per pixel.
pub const UNIT: i64 = 1000;

/// The smaller of width and height.
pub open spec fn min_side(width: u32, height: u32) -> int {
    if width < height { width as int } else { height as int }
}

/// The side, in pixels, left for the code inside the margins.
pub open spec fn code_side(o: QRCodeStylingOptions) -> int {
    min_side(o.width, o.height) - 2 * o.margin
}

/// `r` is the integer square root of `n`.
pub open spec fn is_isqrt(n: int, r: int) -> bool {
    0 <= r && r * r <= n < (r + 1) * (r + 1)
}

/// The integer square root of `n` (the largest `r` with `r * r <= n`).
pub open spec fn isqrt(n: int) -> int {
    choose|r: int| is_isqrt(n, r)
}

/// The integer square root is unique.
pub proof fn lemma_isqrt_unique(n: int, r1: int, r2: int)
    requires
        is_isqrt(n, r1),
        is_isqrt(n, r2),
    ensures
        r1 == r2,
{
    if r1 < r2 {
        assert((r1 + 1) * (r1 + 1) <= r2 * r2) by (nonlinear_arith)
            requires 0 <= r1, r1 + 1 <= r2;
    }
    if r2 < r1 {
        assert((r2 + 1) * (r2 + 1) <= r1 * r1) by (nonlinear_arith)
            requires 0 <= r2, r2 + 1 <= r1;
    }
}

/// The integer square root, by bisection.
pub fn isqrt_u128(n: u128) -> (r: u64)
    ensures
        is_isqrt(n as int, r as int),
        r as int == isqrt(n as int),
{
    let mut lo: u128 = 0;
    let mut hi: u128 = 0x1_0000_0000_0000_0000;
    assert(hi * hi == 0x1_0000_0000_0000_0000_0000_0000_0000_0000);
    while hi - lo > 1
        invariant
            lo < hi <= 0x1_0000_0000_0000_0000,
            lo * lo <= n,
            n < hi * hi,
        decreases hi - lo,
    {
        let mid = lo + (hi - lo) / 2;
        assert(mid * mid < 0x1_0000_0000_0000_0000_0000_0000_0000_0000) by (nonlinear_arith)
            requires mid < 0x1_0000_0000_0000_0000;
        if mid * mid <= n {
            lo = mid;
        } else {
            hi = mid;
        }
    }
    assert(hi == lo + 1);
    proof {
        assert(is_isqrt(n as int, lo as int));
        lemma_isqrt_unique(n as int, lo as int, isqrt(n as int));
    }
    lo as u64
}

/// The side of the drawn code in thousandths of a pixel: the free side, shrunk by the
/// square root of 2 (rounded down) for a circular code so that its corners fit in the circle.
pub open spec fn real_qr_size(o: QRCodeStylingOptions) -> int {
    match o.shape {
        ShapeType::Square => code_side(o) * 1000,
        ShapeType::Circle => isqrt(code_side(o) * code_side(o) * 1000000 / 2),
    }
}

/// The side of one module for a code of `count` modules per side, in thousandths of a pixel:
/// rounded down to whole pixels where the options ask for it.
pub open spec fn dot_size(o: QRCodeStylingOptions, count: int) -> int {
    if o.dots_options.round_size {
        (real_qr_size(o) / (count * 1000)) * 1000
    } else {
        real_qr_size(o) / count
    }
}

/// A length rounded down to whole pixels where the options ask for it.
pub open spec fn round_length(o: QRCodeStylingOptions, v: int) -> int {
    if o.dots_options.round_size { (v / 1000) * 1000 } else { v }
}

/// Where the code starts along a side of `total` pixels, so that it is centered.
pub open spec fn origin(o: QRCodeStylingOptions, count: int, dot: int, total: int) -> int {
    round_length(o, (total * 1000 - count * dot) / 2)
}

/// The number of modules per side hidden behind an image for a code of `count` modules per
/// side: the integer square root of the recoverable share of the modules that the image may
/// cover, made odd (downwards) and at most `count - 14`.
pub open spec fn hidden_side(o: QRCodeStylingOptions, count: int) -> int {
    let max_hidden = (o.image_options.image_size as int * recovery_percent(o.qr_options.error_correction_level)
        * count * count) / 100000;
    let root = isqrt(max_hidden);
    let odd = if root % 2 == 0 { if root > 0 { root - 1 } else { 0 } } else { root };
    let max_axis = if count > 14 { count - 14 } else { 0 };
    if odd < max_axis { odd } else { max_axis }
}

/// Whether the module at `(lr, lc)` of a 7x7 finder square lies on its ring or its center.
pub open spec fn finder_mask(lr: int, lc: int) -> bool {
    lr == 0 || lr == 6 || lc == 0 || lc == 6 || (2 <= lr <= 4 && 2 <= lc <= 4)
}

/// Whether module `(row, col)` lies on the ring or center of one of the three finder squares.
pub open spec fn in_finder_mask(count: int, row: int, col: int) -> bool {
    ||| (row < 7 && col < 7 && finder_mask(row, col))
    ||| (row < 7 && col >= count - 7 && finder_mask(row, col - (count - 7)))
    ||| (row >= count - 7 && col < 7 && finder_mask(row - (count - 7), col))
}

/// Whether module `(row, col)` lies behind the image.
pub open spec fn behind_image(o: QRCodeStylingOptions, count: int, hide_x: int, hide_y: int, row: int, col: int) -> bool {
    &&& o.image_options.hide_background_dots
    &&& o.image is Some
    &&& (count - hide_y) / 2 <= row < (count + hide_y) / 2
    &&& (count - hide_x) / 2 <= col < (count + hide_x) / 2
}

/// Whether a dot may be drawn at module `(row, col)`: not behind the image, and not on the
/// finder squares, which are drawn on their own.
pub open spec fn dot_allowed(o: QRCodeStylingOptions, count: int, hide_x: int, hide_y: int, row: int, col: int) -> bool {
    !behind_image(o, count, hide_x, hide_y, row, col) && !in_finder_mask(count, row, col)
}

/// Without an image, a dot may be drawn exactly where a module is outside the finder
/// patterns or on the light ring between their outer ring and their center.
pub proof fn lemma_dot_allowed_is_finder_region(o: QRCodeStylingOptions, count: int, row: int, col: int)
    requires
        o.image is None,
        count >= 14,
        0 <= row < count,
        0 <= col < count,
    ensures
        dot_allowed(o, count, 0, 0, row, col) <==> (finder_region_of(count, row, col) == FinderRegion::Outside
            || finder_region_of(count, row, col) == FinderRegion::Body),
{
}

/// Where the options do not ask to hide the dots behind the image, the image and the hidden area
/// change nothing: a dot may be drawn at a module exactly where it lies outside the finder
/// patterns or on the light ring between their outer ring and their center.
pub proof fn lemma_dots_kept_under_image(o: QRCodeStylingOptions, count: int, hide_x: int, hide_y: int, row: int, col: int)
    requires
        !o.image_options.hide_background_dots,
        count >= 14,
        0 <= row < count,
        0 <= col < count,
    ensures
        dot_allowed(o, count, hide_x, hide_y, row, col) <==> (finder_region_of(count, row, col) == FinderRegion::Outside
            || finder_region_of(count, row, col) == FinderRegion::Body),
{
}

/// The modules hidden behind an image form a block centered in the code: where the code and the
/// hidden sides are both odd (or both even), a module is hidden exactly when the module mirrored
/// through the center is, and the block holds `hide_y` rows and `hide_x` columns.
pub proof fn lemma_hidden_block_centered(o: QRCodeStylingOptions, count: int, hide_x: int, hide_y: int, row: int, col: int)
    requires
        0 <= hide_x <= count,
        0 <= hide_y <= count,
        (count - hide_x) % 2 == 0,
        (count - hide_y) % 2 == 0,
    ensures
        behind_image(o, count, hide_x, hide_y, row, col) == behind_image(o, count, hide_x, hide_y, count - 1 - row,
            count - 1 - col),
        (count + hide_y) / 2 - (count - hide_y) / 2 == hide_y,
        (count + hide_x) / 2 - (count - hide_x) / 2 == hide_x,
        behind_image(o, count, hide_x, hide_y, row, col) ==> o.image_options.hide_background_dots && o.image is Some,
{
}

/// The modules hidden behind an image never exceed the share of the symbol that its error
/// correction can recover, scaled by the image size: `hidden² <= image_size/1000 *
/// percent/100 * count²`; the hidden side is odd (or zero) and leaves the finder patterns free.
pub proof fn lemma_hidden_area_within_recovery(o: QRCodeStylingOptions, count: int)
    requires
        21 <= count <= 177,
        (count - 17) % 4 == 0,
    ensures
        hidden_side(o, count) * hidden_side(o, count) * 100000
            <= o.image_options.image_size as int * recovery_percent(o.qr_options.error_correction_level) * count * count,
        hidden_side(o, count) == 0 || hidden_side(o, count) % 2 == 1,
        0 <= hidden_side(o, count) <= count - 14,
{
    let max_hidden = (o.image_options.image_size as int * recovery_percent(o.qr_options.error_correction_level)
        * count * count) / 100000;
    assert(max_hidden >= 0) by (nonlinear_arith)
        requires max_hidden == (o.image_options.image_size as int * recovery_percent(o.qr_options.error_correction_level)
            * count * count) / 100000, count >= 0;
    lemma_isqrt_is(max_hidden);
    let root = isqrt(max_hidden);
    let h = hidden_side(o, count);
    assert(0 <= h <= root);
    assert(h * h <= root * root) by (nonlinear_arith) requires 0 <= h <= root;
    assert(max_hidden * 100000 <= o.image_options.image_size as int
        * recovery_percent(o.qr_options.error_correction_level) * count * count);
}

/// A laid out code fits in its canvas: it starts at or after the left and top edges and ends at
/// or before the right and bottom ones.
pub proof fn lemma_code_fits_canvas(o: QRCodeStylingOptions, count: int)
    requires
        code_side(o) >= 0,
        1 <= count,
    ensures
        0 <= origin(o, count, dot_size(o, count), o.width as int),
        origin(o, count, dot_size(o, count), o.width as int) + count * dot_size(o, count) <= o.width * 1000,
        0 <= origin(o, count, dot_size(o, count), o.height as int),
        origin(o, count, dot_size(o, count), o.height as int) + count * dot_size(o, count) <= o.height * 1000,
{
    lemma_dot_size_fits(o, count);
}

/// Whether module `(lr, lc)` of a 7x7 square is on the ring or in the center.
fn finder_mask_at(lr: usize, lc: usize) -> (r: bool)
    ensures
        r == finder_mask(lr as int, lc as int),
{
    lr == 0 || lr == 6 || lc == 0 || lc == 6 || (2 <= lr && lr <= 4 && 2 <= lc && lc <= 4)
}

/// Whether a dot may be drawn at module `(row, col)` (see `dot_allowed`).
pub fn should_draw_dot(
    o: &QRCodeStylingOptions,
    row: usize,
    col: usize,
    count: usize,
    hide_x_dots: usize,
    hide_y_dots: usize,
) -> (r: bool)
    requires
        count >= 7,
        o.image_options.hide_background_dots && o.image is Some ==> {
            &&& hide_x_dots <= count && hide_y_dots <= count
            &&& count + hide_x_dots <= usize::MAX && count + hide_y_dots <= usize::MAX
        },
    ensures
        r == dot_allowed(*o, count as int, hide_x_dots as int, hide_y_dots as int, row as int, col as int),
{
    if o.image_options.hide_background_dots && o.image.is_some() {
        let x_start = (count - hide_x_dots) / 2;
        let x_end = (count + hide_x_dots) / 2;
        let y_start = (count - hide_y_dots) / 2;
        let y_end = (count + hide_y_dots) / 2;
        if row >= y_start && row < y_end && col >= x_start && col < x_end {
            return false;
        }
    }
    if row < 7 && col < 7 {
        if finder_mask_at(row, col) {
            return false;
        }
    }
    if row < 7 && col >= count - 7 {
        if finder_mask_at(row, col - (count - 7)) {
            return false;
        }
    }
    if row >= count - 7 && col < 7 {
        if finder_mask_at(row - (count - 7), col) {
            return false;
        }
    }
    true
}


/// The drawn side lies within the free side.
proof fn lemma_real_size_bounds(o: QRCodeStylingOptions)
    requires
        code_side(o) >= 0,
    ensures
        0 <= real_qr_size(o) <= code_side(o) * 1000,
{
    let m = code_side(o);
    if o.shape == ShapeType::Circle {
        let n = m * m * 1000000 / 2;
        assert(0 <= n <= (m * 1000) * (m * 1000)) by (nonlinear_arith)
            requires m >= 0, n == m * m * 1000000 / 2;
        lemma_isqrt_is(n);
        let r = isqrt(n);
        if r > m * 1000 {
            assert((m * 1000 + 1) * (m * 1000 + 1) <= r * r) by (nonlinear_arith)
                requires r >= m * 1000 + 1, m >= 0;
            assert((m * 1000) * (m * 1000) < (m * 1000 + 1) * (m * 1000 + 1)) by (nonlinear_arith)
                requires m >= 0;
            assert(r * r <= n);
            assert(false);
        }
    }
}

/// The integer square root, for use outside this module.
pub open spec fn isqrt_of(n: int) -> int {
    isqrt(n)
}

/// The modules of a code fit in the drawn side.
pub proof fn lemma_dot_size_fits(o: QRCodeStylingOptions, count: int)
    requires
        code_side(o) >= 0,
        1 <= count,
    ensures
        0 <= count * dot_size(o, count) <= real_qr_size(o) <= code_side(o) * 1000,
{
    lemma_real_size_bounds(o);
    let rr = real_qr_size(o);
    if o.dots_options.round_size {
        vstd::arithmetic::div_mod::lemma_fundamental_div_mod(rr, count * 1000);
        let q = rr / (count * 1000);
        assert(0 <= count * (q * 1000) <= rr) by (nonlinear_arith)
            requires rr == (count * 1000) * q + rr % (count * 1000), 0 <= rr % (count * 1000), count >= 1, rr >= 0;
    } else {
        vstd::arithmetic::div_mod::lemma_fundamental_div_mod(rr, count);
        assert(0 <= count * (rr / count) <= rr) by (nonlinear_arith)
            requires rr == count * (rr / count) + rr % count, 0 <= rr % count, count >= 1, rr >= 0;
    }
}

/// Every natural number has an integer square root.
proof fn isqrt_exists_witness(n: int) -> (r: int)
    requires
        n >= 0,
    ensures
        is_isqrt(n, r),
    decreases n,
{
    if n == 0 {
        assert(is_isqrt(0, 0));
        0
    } else {
        let p = isqrt_exists_witness(n - 1);
        assert(p * p <= n - 1 && n - 1 < (p + 1) * (p + 1) && p >= 0);
        if (p + 1) * (p + 1) <= n {
            assert((p + 1) * (p + 1) == n);
            assert(n < (p + 2) * (p + 2)) by (nonlinear_arith)
                requires (p + 1) * (p + 1) == n, p >= 0;
            assert(is_isqrt(n, p + 1));
            p + 1
        } else {
            assert(is_isqrt(n, p));
            p
        }
    }
}

/// The integer square root of a natural number is its square root in `is_isqrt`'s sense.
pub proof fn lemma_isqrt_is(n: int)
    requires
        n >= 0,
    ensures
        is_isqrt(n, isqrt(n)),
{
    let w = isqrt_exists_witness(n);
    assert(is_isqrt(n, w));
}

/// The side of the drawn code, in thousandths of a pixel (see `real_qr_size`).
pub fn compute_real_size(o: &QRCodeStylingOptions) -> (r: i64)
    requires
        code_side(*o) >= 0,
    ensures
        r == real_qr_size(*o),
        0 <= r <= code_side(*o) * 1000,
{
    proof { lemma_real_size_bounds(*o); }
    let min: u64 = if o.width < o.height { o.width as u64 } else { o.height as u64 };
    let m: u64 = min - 2 * (o.margin as u64);
    match o.shape {
        ShapeType::Square => (m * 1000) as i64,
        ShapeType::Circle => {
            assert(m * m <= 0xffff_ffff_ffff_ffff) by (nonlinear_arith)
                requires m <= 0xffff_ffff;
            let mm = (m as u128) * (m as u128);
            let n = mm * 1000000 / 2;
            assert(n == code_side(*o) * code_side(*o) * 1000000 / 2);
            isqrt_u128(n) as i64
        },
    }
}

/// The side of one module, in thousandths of a pixel (see `dot_size`).
pub fn compute_dot_size(o: &QRCodeStylingOptions, count: usize) -> (d: i64)
    requires
        code_side(*o) >= 0,
        1 <= count <= 1000,
    ensures
        d == dot_size(*o, count as int),
        0 <= d,
        count * d <= real_qr_size(*o) <= code_side(*o) * 1000,
{
    let rsz = compute_real_size(o);
    let c = count as i64;
    if o.dots_options.round_size {
        let d = (rsz / (c * 1000)) * 1000;
        proof {
            let ghost rr = rsz as int;
            let ghost k = c as int * 1000;
            vstd::arithmetic::div_mod::lemma_fundamental_div_mod(rr, k);
            assert(c * d <= rsz) by (nonlinear_arith)
                requires d as int == (rr / k) * 1000, rr == k * (rr / k) + rr % k,
                    rr % k >= 0, k == c * 1000, c >= 1, rr == rsz as int;
        }
        d
    } else {
        let d = rsz / c;
        proof {
            vstd::arithmetic::div_mod::lemma_fundamental_div_mod(rsz as int, c as int);
        }
        d
    }
}

/// Where the code starts along a side of `total` pixels (see `origin`).
pub fn compute_origin(o: &QRCodeStylingOptions, count: usize, dot: i64, total: u32) -> (r: i64)
    requires
        0 <= dot,
        count <= 1000,
        count * dot <= total * 1000,
    ensures
        r == origin(*o, count as int, dot as int, total as int),
        0 <= r <= total * 1000,
{
    assert(0 <= count * dot) by (nonlinear_arith) requires 0 <= dot, 0 <= count;
    let cd = (count as i64) * dot;
    let v = ((total as i64) * 1000 - cd) / 2;
    if o.dots_options.round_size { (v / 1000) * 1000 } else { v }
}

/// The number of modules per side hidden behind an image, the same along both axes
/// (see `hidden_side`).
pub fn calculate_image_hide_area(o: &QRCodeStylingOptions, count: usize) -> (r: (usize, usize))
    requires
        count * count <= usize::MAX,
    ensures
        r.0 == hidden_side(*o, count as int),
        r.1 == r.0,
        r.0 <= (if count > 14 { count - 14 } else { 0 }),
{
    let pct = o.qr_options.error_correction_level.percentage();
    let c = count as u128;
    assert(c * c <= 0xffff_ffff_ffff_ffff);
    let cc = c * c;
    assert((o.image_options.image_size as u128) * (pct as u128) <= 0xffff_ffff * 30) by (nonlinear_arith)
        requires pct <= 30;
    let ip = (o.image_options.image_size as u128) * (pct as u128);
    assert(ip * cc <= 0xffff_ffff * 30 * 0xffff_ffff_ffff_ffff) by (nonlinear_arith)
        requires ip <= 0xffff_ffff * 30, cc <= 0xffff_ffff_ffff_ffff;
    let max_hidden = ip * cc / 100000;
    assert(max_hidden == (o.image_options.image_size as int * recovery_percent(o.qr_options.error_correction_level)
        * count * count) / 100000) by (nonlinear_arith)
        requires ip == o.image_options.image_size as int * pct, cc == count * count,
            pct == recovery_percent(o.qr_options.error_correction_level), max_hidden == ip * cc / 100000;
    let root = isqrt_u128(max_hidden);
    let mut side: u64 = root;
    if side % 2 == 0 {
        if side > 0 { side = side - 1; }
    }
    let max_axis: usize = if count > 14 { count - 14 } else { 0 };
    let hide: usize = if side > max_axis as u64 { max_axis } else { side as usize };
    (hide, hide)
}

} // verus!
