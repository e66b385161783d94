//! Options of a styled QR code: colors, gradients, figure shapes, sizes, and their builder.
use vstd::prelude::*;
use crate::error::QRError;
use crate::text::{hex_byte_text, push_hex_byte};
use crate::types::{CornerDotType, CornerSquareType, DotType, ErrorCorrectionLevel, GradientType, ShapeType};

verus! {

/// An opaque RGB color.
#[derive(Debug, Clone, Copy, PartialEq, Eq, Structural)]
pub struct Color {
    pub r: u8,
    pub g: u8,
    pub b: u8,
}

/// The `#rrggbb` text of a color, in lowercase hexadecimal.
pub open spec fn color_hex(c: Color) -> Seq<char> {
    seq!['#'] + hex_byte_text(c.r) + hex_byte_text(c.g) + hex_byte_text(c.b)
}

impl Color {
    /// A color from its red, green and blue components.
    pub fn new(r: u8, g: u8, b: u8) -> (c: Color)
        ensures
            c == (Color { r, g, b }),
    {
        Color { r, g, b }
    }

    /// Black.
    pub fn black() -> (c: Color)
        ensures
            c == (Color { r: 0, g: 0, b: 0 }),
    {
        Color { r: 0, g: 0, b: 0 }
    }

    /// White.
    pub fn white() -> (c: Color)
        ensures
            c == (Color { r: 255, g: 255, b: 255 }),
    {
        Color { r: 255, g: 255, b: 255 }
    }

    /// The `#rrggbb` text of the color.
    pub fn to_hex(&self) -> (s: String)
        ensures
            s@ == color_hex(*self),
    {
        let mut s = String::new();
        s.append("#");
        proof { reveal_strlit("#"); }
        push_hex_byte(&mut s, self.r);
        push_hex_byte(&mut s, self.g);
        push_hex_byte(&mut s, self.b);
        assert(s@ =~= color_hex(*self));
        s
    }
}

impl Default for Color {
    fn default() -> (c: Self)
        ensures
            c == (Color { r: 0, g: 0, b: 0 }),
    {
        Color { r: 0, g: 0, b: 0 }
    }
}

/// A color at a position along a gradient.
#[derive(Debug, Clone, Copy, PartialEq, Eq, Structural)]
pub struct ColorStop {
    /// Position along the gradient, in thousandths (0 at the start, 1000 at the end).
    pub offset: u32,
    /// Color at that position.
    pub color: Color,
}

/// The direction of a linear gradient: the vector `(x, y)` points along the angle of the
/// gradient, `(cos a, sin a)` up to a positive factor, in SVG coordinates (y down).
/// `(1, 0)` is the angle 0, `(0, 1)` a quarter turn.
#[derive(Debug, Clone, Copy, PartialEq, Eq, Structural)]
pub struct Direction {
    pub x: i32,
    pub y: i32,
}

/// A linear or radial color gradient.
#[derive(Debug, Clone)]
pub struct Gradient {
    pub gradient_type: GradientType,
    /// Direction of a linear gradient (not used by a radial one).
    pub rotation: Direction,
    pub color_stops: Vec<ColorStop>,
}

/// Options of the data dots.
#[derive(Debug, Clone)]
pub struct DotsOptions {
    pub dot_type: DotType,
    pub color: Color,
    pub gradient: Option<Gradient>,
    /// Whether sizes and origins are rounded down to whole pixels.
    pub round_size: bool,
}

impl DotsOptions {
    /// Black dots of the given shape, with whole-pixel sizes.
    pub fn new(dot_type: DotType) -> (r: Self)
        ensures
            r.dot_type == dot_type,
            r.color == Color::black_spec(),
            r.gradient is None,
            r.round_size,
    {
        DotsOptions { dot_type, color: Color::black(), gradient: None, round_size: true }
    }
}

impl Color {
    /// Black, as a value.
    pub open spec fn black_spec() -> Color {
        Color { r: 0, g: 0, b: 0 }
    }

    /// White, as a value.
    pub open spec fn white_spec() -> Color {
        Color { r: 255, g: 255, b: 255 }
    }
}

impl Default for DotsOptions {
    fn default() -> (r: Self)
        ensures
            r.dot_type == DotType::Square,
            r.color == Color::black_spec(),
            r.gradient is None,
            r.round_size,
    {
        DotsOptions::new(DotType::Square)
    }
}

/// Options of the outer rings of the finder patterns.
#[derive(Debug, Clone)]
pub struct CornersSquareOptions {
    pub square_type: CornerSquareType,
    pub color: Color,
    pub gradient: Option<Gradient>,
}

impl Default for CornersSquareOptions {
    fn default() -> (r: Self)
        ensures
            r.square_type == CornerSquareType::Square,
            r.color == Color::black_spec(),
            r.gradient is None,
    {
        CornersSquareOptions { square_type: CornerSquareType::Square, color: Color::black(), gradient: None }
    }
}

/// Options of the central dots of the finder patterns.
#[derive(Debug, Clone)]
pub struct CornersDotOptions {
    pub dot_type: CornerDotType,
    pub color: Color,
    pub gradient: Option<Gradient>,
}

impl Default for CornersDotOptions {
    fn default() -> (r: Self)
        ensures
            r.dot_type == CornerDotType::Square,
            r.color == Color::black_spec(),
            r.gradient is None,
    {
        CornersDotOptions { dot_type: CornerDotType::Square, color: Color::black(), gradient: None }
    }
}

/// Options of the background.
#[derive(Debug, Clone)]
pub struct BackgroundOptions {
    pub color: Color,
    pub gradient: Option<Gradient>,
    /// Corner rounding, in thousandths of half the side (0: square corners; 1000: a circle).
    pub round: u32,
}

impl Default for BackgroundOptions {
    fn default() -> (r: Self)
        ensures
            r.color == Color::white_spec(),
            r.gradient is None,
            r.round == 0,
    {
        BackgroundOptions { color: Color::white(), gradient: None, round: 0 }
    }
}

/// Options of an embedded image.
#[derive(Debug, Clone, Copy, PartialEq, Eq, Structural)]
pub struct ImageOptions {
    /// Whether the dots behind the image are left out.
    pub hide_background_dots: bool,
    /// Share of the recoverable area that the image may cover, in thousandths.
    pub image_size: u32,
    /// Margin around the image, in pixels.
    pub margin: u32,
}

impl Default for ImageOptions {
    fn default() -> (r: Self)
        ensures
            r == (ImageOptions { hide_background_dots: true, image_size: 400, margin: 0 }),
    {
        ImageOptions { hide_background_dots: true, image_size: 400, margin: 0 }
    }
}

/// Options for the QR symbol itself.
#[derive(Debug, Clone, Copy, PartialEq, Eq, Structural)]
pub struct QROptions {
    /// Forced version from 1 to 40, or 0 to let the encoder choose the smallest that fits.
    pub type_number: u8,
    /// Error correction level.
    pub error_correction_level: ErrorCorrectionLevel,
}

impl Default for QROptions {
    fn default() -> (r: Self)
        ensures
            r.type_number == 0,
            r.error_correction_level == ErrorCorrectionLevel::Q,
    {
        QROptions { type_number: 0, error_correction_level: ErrorCorrectionLevel::Q }
    }
}

/// All options of a styled QR code.
#[derive(Debug, Clone)]
pub struct QRCodeStylingOptions {
    /// Width of the image in pixels.
    pub width: u32,
    /// Height of the image in pixels.
    pub height: u32,
    /// Margin around the code in pixels.
    pub margin: u32,
    /// The encoded text.
    pub data: String,
    /// An image (PNG, JPEG or WebP bytes) drawn over the center of the code.
    pub image: Option<Vec<u8>>,
    pub shape: ShapeType,
    pub qr_options: QROptions,
    pub dots_options: DotsOptions,
    pub corners_square_options: CornersSquareOptions,
    pub corners_dot_options: CornersDotOptions,
    pub background_options: BackgroundOptions,
    pub image_options: ImageOptions,
}

/// Whether `o` holds the default options: a 300 x 300 square code without margin, text or
/// image, black square dots and finder patterns with whole-pixel sizes, a white square background,
/// level Q with the version chosen by the encoder, and an image of 0.4 of the code that hides
/// the dots behind it.
pub open spec fn default_options(o: QRCodeStylingOptions) -> bool {
    &&& o.width == 300
    &&& o.height == 300
    &&& o.margin == 0
    &&& o.data@ == Seq::<char>::empty()
    &&& o.image is None
    &&& o.shape == ShapeType::Square
    &&& o.qr_options == (QROptions { type_number: 0, error_correction_level: ErrorCorrectionLevel::Q })
    &&& o.dots_options.dot_type == DotType::Square
    &&& o.dots_options.color == Color::black_spec()
    &&& o.dots_options.gradient is None
    &&& o.dots_options.round_size
    &&& o.corners_square_options.square_type == CornerSquareType::Square
    &&& o.corners_square_options.color == Color::black_spec()
    &&& o.corners_square_options.gradient is None
    &&& o.corners_dot_options.dot_type == CornerDotType::Square
    &&& o.corners_dot_options.color == Color::black_spec()
    &&& o.corners_dot_options.gradient is None
    &&& o.background_options.color == Color::white_spec()
    &&& o.background_options.gradient is None
    &&& o.background_options.round == 0
    &&& o.image_options == (ImageOptions { hide_background_dots: true, image_size: 400, margin: 0 })
}

impl Default for QRCodeStylingOptions {
    fn default() -> (r: Self)
        ensures
            default_options(r),
    {
        QRCodeStylingOptions {
            width: 300,
            height: 300,
            margin: 0,
            data: String::new(),
            image: None,
            shape: ShapeType::Square,
            qr_options: QROptions::default(),
            dots_options: DotsOptions::default(),
            corners_square_options: CornersSquareOptions::default(),
            corners_dot_options: CornersDotOptions::default(),
            background_options: BackgroundOptions::default(),
            image_options: ImageOptions::default(),
        }
    }
}

/// Whether the sizes of a set of options can be drawn: a positive width and height, and
/// margins that leave room for the code.
pub open spec fn valid_dimensions(width: u32, height: u32, margin: u32) -> bool {
    &&& width > 0
    &&& height > 0
    &&& 2 * margin < (if width < height { width } else { height })
}

/// The message of the error for sizes that cannot be drawn.
pub open spec fn invalid_dimensions_message() -> Seq<char> {
    "width and height must be positive and larger than twice the margin"@
}

/// Builder of the options of a styled QR code.
pub struct QRCodeStylingBuilder {
    options: QRCodeStylingOptions,
}

impl QRCodeStylingBuilder {
    /// The options collected so far.
    pub closed spec fn current(&self) -> QRCodeStylingOptions {
        self.options
    }

    /// A builder holding the default options.
    pub fn new() -> (r: Self)
        ensures
            default_options(r.current()),
    {
        QRCodeStylingBuilder { options: QRCodeStylingOptions::default() }
    }

    /// Sets the encoded text.
    pub fn data(self, data: &str) -> (r: Self)
        ensures
            r.current().data@ == data@,
            r.current() == (QRCodeStylingOptions { data: r.current().data, ..self.current() }),
    {
        let mut options = self.options;
        options.data = String::from_str(data);
        QRCodeStylingBuilder { options }
    }

    /// Sets the width in pixels.
    pub fn width(self, width: u32) -> (r: Self)
        ensures
            r.current() == (QRCodeStylingOptions { width, ..self.current() }),
    {
        let mut options = self.options;
        options.width = width;
        QRCodeStylingBuilder { options }
    }

    /// Sets the height in pixels.
    pub fn height(self, height: u32) -> (r: Self)
        ensures
            r.current() == (QRCodeStylingOptions { height, ..self.current() }),
    {
        let mut options = self.options;
        options.height = height;
        QRCodeStylingBuilder { options }
    }

    /// Sets the margin in pixels.
    pub fn margin(self, margin: u32) -> (r: Self)
        ensures
            r.current() == (QRCodeStylingOptions { margin, ..self.current() }),
    {
        let mut options = self.options;
        options.margin = margin;
        QRCodeStylingBuilder { options }
    }

    /// Sets the shape of the code.
    pub fn shape(self, shape: ShapeType) -> (r: Self)
        ensures
            r.current() == (QRCodeStylingOptions { shape, ..self.current() }),
    {
        let mut options = self.options;
        options.shape = shape;
        QRCodeStylingBuilder { options }
    }

    /// Sets the image drawn over the center of the code.
    pub fn image(self, image: Vec<u8>) -> (r: Self)
        ensures
            r.current() == (QRCodeStylingOptions { image: Some(image), ..self.current() }),
    {
        let mut options = self.options;
        options.image = Some(image);
        QRCodeStylingBuilder { options }
    }

    /// Sets the options of the QR symbol.
    pub fn qr_options(self, qr_options: QROptions) -> (r: Self)
        ensures
            r.current() == (QRCodeStylingOptions { qr_options, ..self.current() }),
    {
        let mut options = self.options;
        options.qr_options = qr_options;
        QRCodeStylingBuilder { options }
    }

    /// Sets the options of the data dots.
    pub fn dots_options(self, dots_options: DotsOptions) -> (r: Self)
        ensures
            r.current() == (QRCodeStylingOptions { dots_options, ..self.current() }),
    {
        let mut options = self.options;
        options.dots_options = dots_options;
        QRCodeStylingBuilder { options }
    }

    /// Sets the options of the finder pattern rings.
    pub fn corners_square_options(self, corners_square_options: CornersSquareOptions) -> (r: Self)
        ensures
            r.current() == (QRCodeStylingOptions { corners_square_options, ..self.current() }),
    {
        let mut options = self.options;
        options.corners_square_options = corners_square_options;
        QRCodeStylingBuilder { options }
    }

    /// Sets the options of the finder pattern dots.
    pub fn corners_dot_options(self, corners_dot_options: CornersDotOptions) -> (r: Self)
        ensures
            r.current() == (QRCodeStylingOptions { corners_dot_options, ..self.current() }),
    {
        let mut options = self.options;
        options.corners_dot_options = corners_dot_options;
        QRCodeStylingBuilder { options }
    }

    /// Sets the options of the background.
    pub fn background_options(self, background_options: BackgroundOptions) -> (r: Self)
        ensures
            r.current() == (QRCodeStylingOptions { background_options, ..self.current() }),
    {
        let mut options = self.options;
        options.background_options = background_options;
        QRCodeStylingBuilder { options }
    }

    /// Sets the options of the embedded image.
    pub fn image_options(self, image_options: ImageOptions) -> (r: Self)
        ensures
            r.current() == (QRCodeStylingOptions { image_options, ..self.current() }),
    {
        let mut options = self.options;
        options.image_options = image_options;
        QRCodeStylingBuilder { options }
    }

    /// The collected options, or an error where their sizes cannot be drawn.
    pub fn build_options(self) -> (r: Result<QRCodeStylingOptions, QRError>)
        ensures
            valid_dimensions(self.current().width, self.current().height, self.current().margin)
                ==> r == Ok::<QRCodeStylingOptions, QRError>(self.current()),
            !valid_dimensions(self.current().width, self.current().height, self.current().margin)
                ==> (r matches Err(QRError::InvalidOptions(m)) && m@ == invalid_dimensions_message()),
    {
        let o = self.options;
        let min = if o.width < o.height { o.width } else { o.height };
        if o.width > 0 && o.height > 0 && (o.margin as u64) * 2 < min as u64 {
            Ok(o)
        } else {
            Err(QRError::InvalidOptions(String::from_str("width and height must be positive and larger than twice the margin")))
        }
    }
}

} // verus!
