//! Encoding of rendered raster images as PNG, JPEG or WebP bytes.
use vstd::prelude::*;
use crate::error::QRError;
use crate::types::OutputFormat;

verus! {

/// An 8-bit RGBA raster image: `width * height` pixels row by row, four bytes each.
pub struct RasterImage {
    width: u32,
    height: u32,
    pixels: Vec<u8>,
}

impl RasterImage {
    #[verifier::type_invariant]
    spec fn well_formed(&self) -> bool {
        self.pixels@.len() == 4 * self.width * self.height
    }

    /// Width in pixels.
    pub closed spec fn w(&self) -> u32 {
        self.width
    }

    /// Height in pixels.
    pub closed spec fn h(&self) -> u32 {
        self.height
    }

    /// The RGBA bytes, row by row.
    pub closed spec fn rgba(&self) -> Seq<u8> {
        self.pixels@
    }

    /// An image of the given size whose pixels are all transparent black (all bytes 0).
    pub fn new(width: u32, height: u32) -> (r: RasterImage)
        requires
            4 * width * height <= usize::MAX,
        ensures
            r.w() == width,
            r.h() == height,
            r.rgba() == Seq::new((4 * width * height) as nat, |i: int| 0u8),
    {
        assert((width as int) * (height as int) * 4 == 4 * width * height) by (nonlinear_arith);
        assert((width as int) * (height as int) <= 4 * width * height) by (nonlinear_arith);
        let n: usize = (width as usize) * (height as usize) * 4;
        let mut pixels: Vec<u8> = Vec::new();
        let mut i: usize = 0;
        while i < n
            invariant
                i <= n,
                pixels@ == Seq::new(i as nat, |k: int| 0u8),
            decreases n - i,
        {
            pixels.push(0);
            i = i + 1;
        }
        assert(pixels@ =~= Seq::new((4 * width * height) as nat, |k: int| 0u8));
        RasterImage { width, height, pixels }
    }

    /// The image of the given size with the given RGBA bytes; `None` where their number is not
    /// four per pixel.
    pub fn from_rgba(width: u32, height: u32, pixels: Vec<u8>) -> (r: Option<RasterImage>)
        ensures
            r is Some <==> pixels@.len() == 4 * width * height,
            r matches Some(img) ==> img.w() == width && img.h() == height && img.rgba() == pixels@,
    {
        let n = pixels.len() as u128;
        assert(4 * (width as u128) * (height as u128) <= 4 * 0xffff_ffffu128 * 0xffff_ffffu128) by (nonlinear_arith)
            requires width <= 0xffff_ffff, height <= 0xffff_ffff;
        if n == 4 * (width as u128) * (height as u128) {
            Some(RasterImage { width, height, pixels })
        } else {
            None
        }
    }

    /// Width in pixels.
    pub fn width(&self) -> (r: u32)
        ensures
            r == self.w(),
    {
        self.width
    }

    /// Height in pixels.
    pub fn height(&self) -> (r: u32)
        ensures
            r == self.h(),
    {
        self.height
    }
}

/// The eight bytes that every PNG file starts with.
pub open spec fn png_signature(b: Seq<u8>) -> bool {
    b.len() >= 8 && b[0] == 0x89 && b[1] == 0x50 && b[2] == 0x4E && b[3] == 0x47 && b[4] == 0x0D && b[5] == 0x0A
        && b[6] == 0x1A && b[7] == 0x0A
}

/// The start-of-image marker that every JPEG file starts with.
pub open spec fn jpeg_signature(b: Seq<u8>) -> bool {
    b.len() >= 2 && b[0] == 0xFF && b[1] == 0xD8
}

/// The `RIFF` tag that every WebP file starts with.
pub open spec fn webp_signature(b: Seq<u8>) -> bool {
    b.len() >= 4 && b[0] == 0x52 && b[1] == 0x49 && b[2] == 0x46 && b[3] == 0x46
}

/// Whether the encoders of `image` take an image of this size: PNG any positive size, JPEG
/// sides of 1 to 65535, WebP sides of 1 to 16384.
pub open spec fn encodable(width: u32, height: u32, format: OutputFormat) -> bool {
    match format {
        OutputFormat::Png => width >= 1 && height >= 1,
        OutputFormat::Jpeg => 1 <= width <= 65535 && 1 <= height <= 65535,
        OutputFormat::WebP => 1 <= width <= 16384 && 1 <= height <= 16384,
        _ => false,
    }
}

/// The bytes that `image` writes for an RGBA image of the given size and bytes in a raster
/// format (PNG, JPEG or WebP).
pub uninterp spec fn encoded_image(width: u32, height: u32, rgba: Seq<u8>, format: OutputFormat) -> Seq<u8>;

/// `DynamicImage::write_to` of `image`, into an in-memory buffer, for the RGBA image
/// (`RgbaImage::from_raw`, `DynamicImage::ImageRgba8`) as PNG, JPEG or WebP (`ImageFormat::Png`,
/// `Jpeg`, `WebP`); the error is handed back as its text. States that the bytes are the named
/// `encoded_image` of the size, pixels and format; that encoding succeeds exactly for the sizes
/// the encoders take (`png` refuses a zero side, the JPEG encoder sides above 65535,
/// `image-webp` sides above 16384); and what the encoders write first: the PNG signature, the
/// JPEG start-of-image marker, the WebP `RIFF` tag. The error text is not stated.
#[verifier::external_body]
fn write_image(width: u32, height: u32, rgba: &Vec<u8>, format: OutputFormat) -> (r: Result<Vec<u8>, String>)
    requires
        rgba@.len() == 4 * width * height,
        format == OutputFormat::Png || format == OutputFormat::Jpeg || format == OutputFormat::WebP,
    ensures
        r is Ok <==> encodable(width, height, format),
        r matches Ok(b) ==> b@ == encoded_image(width, height, rgba@, format),
        r matches Ok(b) ==> (format == OutputFormat::Png ==> png_signature(b@)),
        r matches Ok(b) ==> (format == OutputFormat::Jpeg ==> jpeg_signature(b@)),
        r matches Ok(b) ==> (format == OutputFormat::WebP ==> webp_signature(b@)),
{
    let image_format = match format {
        OutputFormat::Png => image::ImageFormat::Png,
        OutputFormat::Jpeg => image::ImageFormat::Jpeg,
        _ => image::ImageFormat::WebP,
    };
    let buffer = image::RgbaImage::from_raw(width, height, rgba.clone()).ok_or_else(String::new)?;
    let mut out = std::io::Cursor::new(Vec::new());
    image::DynamicImage::ImageRgba8(buffer).write_to(&mut out, image_format).map_err(|e| e.to_string())?;
    Ok(out.into_inner())
}

/// The message of the error for SVG, which is not a raster format.
pub open spec fn svg_not_raster_message() -> Seq<char> {
    "SVG format should use SVG renderer"@
}

/// The message of the error for PDF, which is not a raster format.
pub open spec fn pdf_not_raster_message() -> Seq<char> {
    "PDF format should use PDF renderer"@
}

/// Raster renderer for converting images to raster formats.
pub struct RasterRenderer;

impl RasterRenderer {
    /// Encodes an image as PNG, JPEG or WebP bytes; SVG and PDF are refused, and so is a size that
    /// the format's encoder does not take.
    pub fn encode_image(image: &RasterImage, format: OutputFormat) -> (r: Result<Vec<u8>, QRError>)
        ensures
            format == OutputFormat::Svg ==> (r matches Err(QRError::ImageEncodeError(m)) && m@ == svg_not_raster_message()),
            format == OutputFormat::Pdf ==> (r matches Err(QRError::ImageEncodeError(m)) && m@ == pdf_not_raster_message()),
            format != OutputFormat::Svg && format != OutputFormat::Pdf ==> {
                &&& r is Ok <==> encodable(image.w(), image.h(), format)
                &&& r matches Ok(b) ==> b@ == encoded_image(image.w(), image.h(), image.rgba(), format)
                &&& r is Err ==> r matches Err(QRError::ImageEncodeError(_))
            },
            r matches Ok(b) ==> (format == OutputFormat::Png ==> png_signature(b@)),
            r matches Ok(b) ==> (format == OutputFormat::Jpeg ==> jpeg_signature(b@)),
            r matches Ok(b) ==> (format == OutputFormat::WebP ==> webp_signature(b@)),
    {
        if format == OutputFormat::Svg {
            return Err(QRError::ImageEncodeError(String::from_str("SVG format should use SVG renderer")));
        }
        if format == OutputFormat::Pdf {
            return Err(QRError::ImageEncodeError(String::from_str("PDF format should use PDF renderer")));
        }
        proof { use_type_invariant(image); }
        match write_image(image.width, image.height, &image.pixels, format) {
            Ok(b) => Ok(b),
            Err(e) => Err(QRError::ImageEncodeError(e)),
        }
    }
}

} // verus!
