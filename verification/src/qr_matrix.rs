//! QR code matrix: the dark and light modules of a symbol, with neighbor and finder lookups.
use vstd::prelude::*;
use crate::config::QROptions;
use crate::error::QRError;
use crate::text::{nat_text, push_nat};
use crate::types::{fast_qr_ecl_level, ErrorCorrectionLevel};

verus! {

#[verifier::external_type_specification]
#[verifier::external_body]
pub struct ExVersion(fast_qr::Version);

/// The version number (1 to 40) that a `fast_qr::Version` value stands for.
pub uninterp spec fn fast_qr_version_number(v: fast_qr::Version) -> u8;

/// What `fast_qr`'s `QRBuilder::build` gives for the bytes of `data`, an error correction
/// level and a forced version number (0: chosen by `fast_qr`): `None` when it fails, else the
/// side length of the symbol and the values of its whole module array (`true`: dark), whose
/// first `side * side` entries are the symbol row by row.
pub uninterp spec fn fast_qr_symbol(data: Seq<char>, ecl: ErrorCorrectionLevel, version: u8) -> Option<(nat, Seq<bool>)>;

/// The text of the error that `fast_qr`'s `QRBuilder::build` gives for the bytes of `data`, an
/// error correction level and a forced version number (0: chosen by `fast_qr`), where it fails.
pub uninterp spec fn fast_qr_error_text(data: Seq<char>, ecl: ErrorCorrectionLevel, version: u8) -> Seq<char>;

/// The version number handed to `fast_qr`, 0 when it chooses.
pub open spec fn version_arg_number(version: Option<fast_qr::Version>) -> u8 {
    match version {
        Some(v) => fast_qr_version_number(v),
        None => 0,
    }
}

/// `fast_qr::Version::V01` to `V10`, chosen by number.
#[verifier::external_body]
fn fast_qr_version_1_to_10(n: u8) -> (v: fast_qr::Version)
    requires 1 <= n <= 10,
    ensures fast_qr_version_number(v) == n,
{
    match n { 1 => fast_qr::Version::V01, 2 => fast_qr::Version::V02, 3 => fast_qr::Version::V03, 4 => fast_qr::Version::V04, 5 => fast_qr::Version::V05,
        6 => fast_qr::Version::V06, 7 => fast_qr::Version::V07, 8 => fast_qr::Version::V08, 9 => fast_qr::Version::V09, _ => fast_qr::Version::V10 }
}

/// `fast_qr::Version::V11` to `V20`, chosen by number.
#[verifier::external_body]
fn fast_qr_version_11_to_20(n: u8) -> (v: fast_qr::Version)
    requires 11 <= n <= 20,
    ensures fast_qr_version_number(v) == n,
{
    match n { 11 => fast_qr::Version::V11, 12 => fast_qr::Version::V12, 13 => fast_qr::Version::V13, 14 => fast_qr::Version::V14, 15 => fast_qr::Version::V15,
        16 => fast_qr::Version::V16, 17 => fast_qr::Version::V17, 18 => fast_qr::Version::V18, 19 => fast_qr::Version::V19, _ => fast_qr::Version::V20 }
}

/// `fast_qr::Version::V21` to `V30`, chosen by number.
#[verifier::external_body]
fn fast_qr_version_21_to_30(n: u8) -> (v: fast_qr::Version)
    requires 21 <= n <= 30,
    ensures fast_qr_version_number(v) == n,
{
    match n { 21 => fast_qr::Version::V21, 22 => fast_qr::Version::V22, 23 => fast_qr::Version::V23, 24 => fast_qr::Version::V24, 25 => fast_qr::Version::V25,
        26 => fast_qr::Version::V26, 27 => fast_qr::Version::V27, 28 => fast_qr::Version::V28, 29 => fast_qr::Version::V29, _ => fast_qr::Version::V30 }
}

/// `fast_qr::Version::V31` to `V40`, chosen by number.
#[verifier::external_body]
fn fast_qr_version_31_to_40(n: u8) -> (v: fast_qr::Version)
    requires 31 <= n <= 40,
    ensures fast_qr_version_number(v) == n,
{
    match n { 31 => fast_qr::Version::V31, 32 => fast_qr::Version::V32, 33 => fast_qr::Version::V33, 34 => fast_qr::Version::V34, 35 => fast_qr::Version::V35,
        36 => fast_qr::Version::V36, 37 => fast_qr::Version::V37, 38 => fast_qr::Version::V38, 39 => fast_qr::Version::V39, _ => fast_qr::Version::V40 }
}

/// The `fast_qr` version for a type number: `None` for 0 (automatic) and for numbers above 40.
fn type_number_to_version(type_number: u8) -> (r: Option<fast_qr::Version>)
    ensures
        (1 <= type_number <= 40) <==> r is Some,
        r matches Some(v) ==> fast_qr_version_number(v) == type_number,
{
    if type_number == 0 || type_number > 40 {
        None
    } else if type_number <= 10 {
        Some(fast_qr_version_1_to_10(type_number))
    } else if type_number <= 20 {
        Some(fast_qr_version_11_to_20(type_number))
    } else if type_number <= 30 {
        Some(fast_qr_version_21_to_30(type_number))
    } else {
        Some(fast_qr_version_31_to_40(type_number))
    }
}

/// Builds a symbol with `fast_qr` (`QRBuilder::new`, `ecl`, `version`, `build`) from the bytes
/// of `data`, and hands back its side length and the dark bit (`Module::value`) of every entry
/// of its module array, or the error's text. States that the result is the named
/// `fast_qr_symbol`, and what `fast_qr`'s source shows of it: an array of `177 * 177` modules
/// and a side of `4 * v + 17` for a version `v` from 1 to 40 (21 to 177), the forced one when a
/// version is given. An error's text is the named `fast_qr_error_text`, one of the two texts of
/// `QRCodeError`: data too big for any version (the only one when no version is forced), or a
/// forced version too small. The three finder patterns are drawn as `fast_qr`'s
/// `create_matrix_pattern` draws them (outer ring and center dark, the ring between light) and
/// never overwritten: data placement and masking only touch data modules, and the timing,
/// alignment, version and format modules lie outside the three 7x7 squares.
#[verifier::external_body]
fn fast_qr_build(data: &str, ecl: fast_qr::ECL, version: Option<fast_qr::Version>) -> (r: Result<(usize, Vec<bool>), String>)
    ensures
        r is Ok <==> fast_qr_symbol(data@, fast_qr_ecl_level(ecl), version_arg_number(version)) is Some,
        r matches Ok((size, modules)) ==> {
            &&& fast_qr_symbol(data@, fast_qr_ecl_level(ecl), version_arg_number(version)) == Some((size as nat, modules@))
            &&& modules@.len() == 177 * 177
            &&& 21 <= size <= 177 && (size - 17) % 4 == 0
            &&& version_arg_number(version) != 0 ==> size == 4 * version_arg_number(version) + 17
            &&& finders_drawn(size as int, modules@)
        },
        r matches Err(e) ==> {
            &&& e@ == fast_qr_error_text(data@, fast_qr_ecl_level(ecl), version_arg_number(version))
            &&& e@ == "Data too big to be encoded"@ || e@ == "Specified version too low to contain data"@
            &&& version_arg_number(version) == 0 ==> e@ == "Data too big to be encoded"@
        },
{
    let mut builder = fast_qr::QRBuilder::new(data.as_bytes());
    builder.ecl(ecl);
    if let Some(v) = version {
        builder.version(v);
    }
    match builder.build() {
        Ok(qr) => Ok((qr.size, qr.data.iter().map(|m| m.value()).collect())),
        Err(e) => Err(e.to_string()),
    }
}

/// The symbol that a matrix is made from for `data` and `options`: its side and its modules
/// row by row; `None` for a type number above 40 and where `fast_qr` fails.
pub open spec fn qr_symbol(data: Seq<char>, options: QROptions) -> Option<(nat, Seq<bool>)> {
    if options.type_number > 40 {
        None
    } else {
        match fast_qr_symbol(data, options.error_correction_level, options.type_number) {
            Some((size, all)) => Some((size, all.subrange(0, (size * size) as int))),
            None => None,
        }
    }
}

/// The text of the error for a matrix that cannot be built from `data` and `options`: the
/// version message for a type number above 40, else `fast_qr`'s.
pub open spec fn build_error_text(data: Seq<char>, options: QROptions) -> Seq<char> {
    if options.type_number > 40 {
        invalid_version_message(options.type_number)
    } else {
        fast_qr_error_text(data, options.error_correction_level, options.type_number)
    }
}

/// The message of the error for a type number above 40.
pub open spec fn invalid_version_message(type_number: u8) -> Seq<char> {
    "Invalid QR version: "@ + nat_text(type_number as nat)
}

/// Which part of a finder pattern a module belongs to.
#[derive(Debug, Clone, Copy, PartialEq, Eq, Structural)]
pub enum FinderRegion {
    /// Not in any of the three 7x7 finder patterns.
    Outside,
    /// The outer ring (first and last row and column of the 7x7 square).
    Outer,
    /// The central 3x3 square.
    Inner,
    /// The light ring between the two.
    Body,
}

/// The origin of the finder pattern that holds a module of a matrix of side `n`:
/// top-left, then top-right, then bottom-left.
pub open spec fn finder_origin(n: int, row: int, col: int) -> Option<(int, int)> {
    if row < 7 && col < 7 {
        Some((0, 0))
    } else if row < 7 && col >= n - 7 {
        Some((0, n - 7))
    } else if row >= n - 7 && col < 7 {
        Some((n - 7, 0))
    } else {
        None
    }
}

/// The finder region of module `(row, col)` in a matrix of side `n`.
pub open spec fn finder_region_of(n: int, row: int, col: int) -> FinderRegion {
    match finder_origin(n, row, col) {
        None => FinderRegion::Outside,
        Some((r0, c0)) => {
            let lr = row - r0;
            let lc = col - c0;
            if lr == 0 || lr == 6 || lc == 0 || lc == 6 {
                FinderRegion::Outer
            } else if 2 <= lr <= 4 && 2 <= lc <= 4 {
                FinderRegion::Inner
            } else {
                FinderRegion::Body
            }
        }
    }
}

/// The modules `cells` (row by row, `n` per row) show finder patterns: on each of the three
/// 7x7 squares the outer ring and the center are dark and the ring between them is light.
pub open spec fn finders_drawn(n: int, cells: Seq<bool>) -> bool {
    forall|row: int, col: int|
        #![trigger finder_region_of(n, row, col)]
        0 <= row < n && 0 <= col < n && finder_region_of(n, row, col) != FinderRegion::Outside
            ==> cells[row * n + col] == (finder_region_of(n, row, col) == FinderRegion::Outer
                || finder_region_of(n, row, col) == FinderRegion::Inner)
}

/// The finder patterns are the three 7x7 squares in the top-left, top-right and bottom-left
/// corners of a matrix (of side at least 14, where they do not overlap).
pub proof fn lemma_finder_patterns_are_corner_squares(n: int, row: int, col: int)
    requires
        n >= 14,
        0 <= row < n,
        0 <= col < n,
    ensures
        (finder_region_of(n, row, col) != FinderRegion::Outside) <==> ((row < 7 && col < 7) || (row < 7 && col >= n - 7)
            || (row >= n - 7 && col < 7)),
{
}

/// In each finder square, the outer ring is the border of the 7x7 square, the center is the
/// 3x3 square two modules in, and the rest is the light ring between them.
pub proof fn lemma_finder_square_parts(n: int, r0: int, c0: int, lr: int, lc: int)
    requires
        n >= 14,
        (r0 == 0 && c0 == 0) || (r0 == 0 && c0 == n - 7) || (r0 == n - 7 && c0 == 0),
        0 <= lr < 7,
        0 <= lc < 7,
    ensures
        finder_region_of(n, r0 + lr, c0 + lc) == (if lr == 0 || lr == 6 || lc == 0 || lc == 6 {
            FinderRegion::Outer
        } else if 2 <= lr <= 4 && 2 <= lc <= 4 {
            FinderRegion::Inner
        } else {
            FinderRegion::Body
        }),
{
}

/// The modules of a QR symbol, with constant-time lookup.
#[derive(Debug)]
pub struct QRMatrix {
    /// Module values row by row (`true`: dark).
    modules: Vec<bool>,
    /// Number of modules per side.
    size: usize,
}

impl QRMatrix {
    #[verifier::type_invariant]
    spec fn well_formed(&self) -> bool {
        &&& self.modules@.len() == self.size * self.size
        &&& 21 <= self.size <= 177
        &&& (self.size - 17) % 4 == 0
    }

    /// Number of modules per side.
    pub closed spec fn side(&self) -> nat {
        self.size as nat
    }

    /// The modules row by row.
    pub closed spec fn cells(&self) -> Seq<bool> {
        self.modules@
    }

    /// The finder patterns of the matrix: on each of the three 7x7 corner squares the outer
    /// ring and the center are dark and the ring between them is light.
    pub open spec fn finder_colors(&self) -> bool {
        forall|row: int, col: int|
            #![trigger finder_region_of(self.side() as int, row, col)]
            0 <= row < self.side() && 0 <= col < self.side()
                && finder_region_of(self.side() as int, row, col) != FinderRegion::Outside
                ==> self.dark(row, col) == (finder_region_of(self.side() as int, row, col) == FinderRegion::Outer
                    || finder_region_of(self.side() as int, row, col) == FinderRegion::Inner)
    }

    /// Whether module `(row, col)` is dark; `false` outside the matrix.
    pub open spec fn dark(&self, row: int, col: int) -> bool {
        0 <= row < self.side() && 0 <= col < self.side() && self.cells()[row * self.side() + col]
    }

    /// Creates the matrix of the symbol that `fast_qr` builds for `data` with `options`.
    pub fn new(data: &str, options: &QROptions) -> (r: Result<Self, QRError>)
        ensures
            r is Ok <==> qr_symbol(data@, *options) is Some,
            r matches Ok(m) ==> qr_symbol(data@, *options) == Some((m.side(), m.cells())),
            r matches Ok(m) ==> (options.type_number != 0 ==> m.side() == 4 * options.type_number + 17),
            r is Err ==> (r matches Err(QRError::QRGenerationError(msg)) && msg@ == build_error_text(data@, *options)),
            r matches Ok(m) ==> (m.side() - 17) % 4 == 0,
            r matches Ok(m) ==> m.finder_colors(),
    {
        if options.type_number > 40 {
            let mut msg = String::new();
            msg.append("Invalid QR version: ");
            push_nat(&mut msg, options.type_number as u128);
            return Err(QRError::QRGenerationError(msg));
        }
        let ecl = options.error_correction_level.to_fast_qr_ecl();
        let version = type_number_to_version(options.type_number);
        assert(version_arg_number(version) == options.type_number);
        match fast_qr_build(data, ecl, version) {
            Ok((size, all)) => {
                assert(size * size <= 177 * 177) by (nonlinear_arith) requires size <= 177;
                let n = size * size;
                let mut modules: Vec<bool> = Vec::with_capacity(n);
                let mut i: usize = 0;
                while i < n
                    invariant
                        n == size * size,
                        n <= all@.len(),
                        i <= n,
                        modules@ == all@.subrange(0, i as int),
                    decreases n - i,
                {
                    modules.push(all[i]);
                    i = i + 1;
                }
                proof {
                    assert forall|row: int, col: int|
                        #![trigger finder_region_of(size as int, row, col)]
                        0 <= row < size && 0 <= col < size && finder_region_of(size as int, row, col) != FinderRegion::Outside
                        implies modules@[row * size + col] == (finder_region_of(size as int, row, col) == FinderRegion::Outer
                            || finder_region_of(size as int, row, col) == FinderRegion::Inner) by {
                        assert(row * size + col < size * size) by (nonlinear_arith)
                            requires 0 <= row < size, 0 <= col < size;
                        assert(0 <= row * size) by (nonlinear_arith) requires 0 <= row, size >= 0;
                    }
                }
                let m = QRMatrix { modules, size };
                assert(m.finder_colors());
                Ok(m)
            },
            Err(e) => Err(QRError::QRGenerationError(e)),
        }
    }

    /// Number of modules per side.
    pub fn size(&self) -> (r: usize)
        ensures
            r == self.side(),
            21 <= r <= 177,
            (r - 17) % 4 == 0,
            self.cells().len() == r * r,
    {
        proof { use_type_invariant(self); }
        self.size
    }

    /// Number of modules per side (same as `size`).
    pub fn module_count(&self) -> (r: usize)
        ensures
            r == self.side(),
            21 <= r <= 177,
            (r - 17) % 4 == 0,
            self.cells().len() == r * r,
    {
        self.size()
    }

    /// Whether module `(row, col)` is dark; `false` outside the matrix.
    pub fn is_dark(&self, row: usize, col: usize) -> (r: bool)
        ensures
            r == self.dark(row as int, col as int),
    {
        proof { use_type_invariant(self); }
        if row >= self.size || col >= self.size {
            return false;
        }
        proof {
            assert(row * self.size + col < self.size * self.size) by (nonlinear_arith)
                requires row < self.size, col < self.size;
            assert(self.size * self.size <= 177 * 177) by (nonlinear_arith)
                requires self.size <= 177;
        }
        self.modules[row * self.size + col]
    }

    /// Whether module `(row, col)` is dark, for signed coordinates; `false` outside the matrix.
    pub fn is_dark_signed(&self, row: i32, col: i32) -> (r: bool)
        ensures
            r == self.dark(row as int, col as int),
    {
        if row < 0 || col < 0 {
            return false;
        }
        self.is_dark(row as usize, col as usize)
    }

    /// Whether the module at offset `(offset_x, offset_y)` from `(row, col)` is dark.
    pub fn get_neighbor(&self, row: i32, col: i32, offset_x: i32, offset_y: i32) -> (r: bool)
        requires
            i32::MIN <= row + offset_y <= i32::MAX,
            i32::MIN <= col + offset_x <= i32::MAX,
        ensures
            r == self.dark(row + offset_y, col + offset_x),
    {
        self.is_dark_signed(row + offset_y, col + offset_x)
    }

    /// The finder region of module `(row, col)`.
    pub fn finder_region(&self, row: usize, col: usize) -> (r: FinderRegion)
        ensures
            r == finder_region_of(self.side() as int, row as int, col as int),
    {
        proof { use_type_invariant(self); }
        let size = self.size;
        let (start_r, start_c): (usize, usize) = if row < 7 && col < 7 {
            (0, 0)
        } else if row < 7 && col >= size - 7 {
            (0, size - 7)
        } else if row >= size - 7 && col < 7 {
            (size - 7, 0)
        } else {
            return FinderRegion::Outside;
        };
        let local_r = row - start_r;
        let local_c = col - start_c;
        if local_r == 0 || local_r == 6 || local_c == 0 || local_c == 6 {
            FinderRegion::Outer
        } else if 2 <= local_r && local_r <= 4 && 2 <= local_c && local_c <= 4 {
            FinderRegion::Inner
        } else {
            FinderRegion::Body
        }
    }

    /// Whether `(row, col)` lies in one of the three 7x7 finder patterns
    /// (top-left at (0, 0), top-right at (0, size - 7), bottom-left at (size - 7, 0)).
    pub fn is_finder_pattern(&self, row: usize, col: usize) -> (r: bool)
        ensures
            r == (finder_region_of(self.side() as int, row as int, col as int) != FinderRegion::Outside),
    {
        self.finder_region(row, col) != FinderRegion::Outside
    }

    /// Whether `(row, col)` lies on the outer ring of a finder pattern.
    pub fn is_finder_pattern_outer(&self, row: usize, col: usize) -> (r: bool)
        ensures
            r == (finder_region_of(self.side() as int, row as int, col as int) == FinderRegion::Outer),
    {
        self.finder_region(row, col) == FinderRegion::Outer
    }

    /// Whether `(row, col)` lies in the central 3x3 square of a finder pattern.
    pub fn is_finder_pattern_inner(&self, row: usize, col: usize) -> (r: bool)
        ensures
            r == (finder_region_of(self.side() as int, row as int, col as int) == FinderRegion::Inner),
    {
        self.finder_region(row, col) == FinderRegion::Inner
    }
}

impl Clone for QRMatrix {
    /// A matrix with the same modules.
    fn clone(&self) -> (r: Self)
        ensures
            r.side() == self.side(),
            r.cells() == self.cells(),
    {
        proof { use_type_invariant(self); }
        QRMatrix { modules: self.modules.clone(), size: self.size }
    }
}

} // verus!
