//! Enumerations that select error correction, figure shapes and output formats.
use vstd::prelude::*;

verus! {

#[verifier::external_type_specification]
#[verifier::external_body]
pub struct ExEcl(fast_qr::ECL);

/// The level that a `fast_qr::ECL` value stands for (its variant of the same name).
pub uninterp spec fn fast_qr_ecl_level(e: fast_qr::ECL) -> ErrorCorrectionLevel;

/// Error correction level for QR codes.
#[derive(Debug, Clone, Copy, PartialEq, Eq, Structural)]
pub enum ErrorCorrectionLevel {
    /// Low error correction (about 7% recovery).
    L,
    /// Medium error correction (about 15% recovery).
    M,
    /// Quartile error correction (about 25% recovery, the default).
    Q,
    /// High error correction (about 30% recovery).
    H,
}

/// The share of a symbol that a level can recover, in percent.
pub open spec fn recovery_percent(level: ErrorCorrectionLevel) -> nat {
    match level {
        ErrorCorrectionLevel::L => 7,
        ErrorCorrectionLevel::M => 15,
        ErrorCorrectionLevel::Q => 25,
        ErrorCorrectionLevel::H => 30,
    }
}

impl Default for ErrorCorrectionLevel {
    fn default() -> (r: Self)
        ensures
            r == ErrorCorrectionLevel::Q,
    {
        ErrorCorrectionLevel::Q
    }
}

impl ErrorCorrectionLevel {
    /// Returns the share of a symbol that this level can recover, in percent.
    pub fn percentage(&self) -> (p: u32)
        ensures
            p == recovery_percent(*self),
    {
        match self {
            ErrorCorrectionLevel::L => 7,
            ErrorCorrectionLevel::M => 15,
            ErrorCorrectionLevel::Q => 25,
            ErrorCorrectionLevel::H => 30,
        }
    }

    /// Converts to the error correction level of `fast_qr` (`fast_qr::ECL`), variant for
    /// variant: states that the result stands for this level.
    #[verifier::external_body]
    pub fn to_fast_qr_ecl(&self) -> (r: fast_qr::ECL)
        ensures
            fast_qr_ecl_level(r) == *self,
    {
        match self {
            ErrorCorrectionLevel::L => fast_qr::ECL::L,
            ErrorCorrectionLevel::M => fast_qr::ECL::M,
            ErrorCorrectionLevel::Q => fast_qr::ECL::Q,
            ErrorCorrectionLevel::H => fast_qr::ECL::H,
        }
    }
}

/// Shape of the data dots.
#[derive(Debug, Clone, Copy, PartialEq, Eq, Structural)]
pub enum DotType {
    Square,
    Dots,
    Rounded,
    ExtraRounded,
    Classy,
    ClassyRounded,
}

impl Default for DotType {
    fn default() -> (r: Self)
        ensures
            r == DotType::Square,
    {
        DotType::Square
    }
}

/// Shape of the outer ring of the three finder patterns.
#[derive(Debug, Clone, Copy, PartialEq, Eq, Structural)]
pub enum CornerSquareType {
    Square,
    Dot,
}

impl Default for CornerSquareType {
    fn default() -> (r: Self)
        ensures
            r == CornerSquareType::Square,
    {
        CornerSquareType::Square
    }
}

/// Shape of the inner 3x3 dot of the three finder patterns.
#[derive(Debug, Clone, Copy, PartialEq, Eq, Structural)]
pub enum CornerDotType {
    Square,
    Dot,
}

impl Default for CornerDotType {
    fn default() -> (r: Self)
        ensures
            r == CornerDotType::Square,
    {
        CornerDotType::Square
    }
}

/// Overall shape of the code.
#[derive(Debug, Clone, Copy, PartialEq, Eq, Structural)]
pub enum ShapeType {
    Square,
    Circle,
}

impl Default for ShapeType {
    fn default() -> (r: Self)
        ensures
            r == ShapeType::Square,
    {
        ShapeType::Square
    }
}

/// Kind of a color gradient.
#[derive(Debug, Clone, Copy, PartialEq, Eq, Structural)]
pub enum GradientType {
    Linear,
    Radial,
}

/// Output formats of a rendered code.
#[derive(Debug, Clone, Copy, PartialEq, Eq, Structural)]
pub enum OutputFormat {
    Svg,
    Png,
    Jpeg,
    WebP,
    Pdf,
}

} // verus!
