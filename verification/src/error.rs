//! Errors of the library.
use vstd::prelude::*;

verus! {

/// Errors that creating or rendering a code can give.
#[derive(Debug)]
pub enum QRError {
    /// The QR symbol could not be built from the data and options.
    QRGenerationError(String),
    /// The options are not usable (sizes, margins).
    InvalidOptions(String),
    /// An SVG document could not be read or rasterized.
    SvgError(String),
    /// A raster image could not be encoded.
    ImageEncodeError(String),
    /// Reading or writing a file failed.
    IoError(String),
}

} // verus!
