use qr_code_styling::error::QRError;
use qr_code_styling::raster_renderer::{RasterImage, RasterRenderer};
use qr_code_styling::types::OutputFormat;

#[test]
fn test_encode_png() {
    let img = RasterImage::new(100, 100);
    let result = RasterRenderer::encode_image(&img, OutputFormat::Png);
    assert!(result.is_ok());
    let bytes = result.unwrap();
    assert!(!bytes.is_empty());
    // PNG magic bytes
    assert_eq!(&bytes[0..4], &[0x89, 0x50, 0x4E, 0x47]);
}

#[test]
fn test_encode_jpeg() {
    let img = RasterImage::new(100, 100);
    let result = RasterRenderer::encode_image(&img, OutputFormat::Jpeg);
    assert!(result.is_ok());
    let bytes = result.unwrap();
    assert!(!bytes.is_empty());
    // JPEG magic bytes
    assert_eq!(&bytes[0..2], &[0xFF, 0xD8]);
}

#[test]
fn svg_and_pdf_are_not_raster_formats() {
    let img = RasterImage::new(10, 10);
    match RasterRenderer::encode_image(&img, OutputFormat::Svg) {
        Err(QRError::ImageEncodeError(m)) => assert_eq!(m, "SVG format should use SVG renderer"),
        _ => panic!("expected an error"),
    }
    match RasterRenderer::encode_image(&img, OutputFormat::Pdf) {
        Err(QRError::ImageEncodeError(m)) => assert_eq!(m, "PDF format should use PDF renderer"),
        _ => panic!("expected an error"),
    }
    let webp = RasterRenderer::encode_image(&img, OutputFormat::WebP).unwrap();
    assert_eq!(&webp[0..4], b"RIFF");
}

#[test]
fn sizes_the_encoders_refuse() {
    let empty = RasterImage::new(0, 10);
    assert!(matches!(RasterRenderer::encode_image(&empty, OutputFormat::Png), Err(QRError::ImageEncodeError(_))));
    let wide = RasterImage::new(16385, 1);
    assert!(RasterRenderer::encode_image(&wide, OutputFormat::WebP).is_err());
    assert!(RasterRenderer::encode_image(&wide, OutputFormat::Png).is_ok());
}

#[test]
fn images_from_rgba_bytes() {
    assert!(RasterImage::from_rgba(2, 2, vec![0u8; 15]).is_none());
    let img = RasterImage::from_rgba(2, 2, vec![255u8; 16]).unwrap();
    assert_eq!((img.width(), img.height()), (2, 2));
    let a = RasterRenderer::encode_image(&img, OutputFormat::Png).unwrap();
    let b = RasterRenderer::encode_image(&RasterImage::new(2, 2), OutputFormat::Png).unwrap();
    assert_ne!(a, b);
}
