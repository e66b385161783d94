use qr_code_styling::config::QROptions;
use qr_code_styling::error::QRError;
use qr_code_styling::qr_matrix::{FinderRegion, QRMatrix};
use qr_code_styling::types::ErrorCorrectionLevel;

#[test]
fn test_qr_matrix_creation() {
    let options = QROptions::default();
    let matrix = QRMatrix::new("Hello", &options).unwrap();
    assert!(matrix.size() >= 21); // Minimum QR code size
}

#[test]
fn test_is_dark() {
    let options = QROptions::default();
    let matrix = QRMatrix::new("Test", &options).unwrap();

    // Finder pattern top-left corner should be dark
    assert!(matrix.is_dark(0, 0));
}

#[test]
fn test_neighbor_lookup() {
    let options = QROptions::default();
    let matrix = QRMatrix::new("Test", &options).unwrap();

    // Test that neighbor lookup works
    let dark = matrix.is_dark(0, 0);
    let neighbor = matrix.get_neighbor(0, 1, -1, 0);
    assert_eq!(dark, neighbor);
}

#[test]
fn test_finder_pattern_detection() {
    let options = QROptions::default();
    let matrix = QRMatrix::new("Test", &options).unwrap();

    // Top-left corner should be finder pattern
    assert!(matrix.is_finder_pattern(0, 0));
    assert!(matrix.is_finder_pattern(3, 3));
    assert!(matrix.is_finder_pattern(6, 6));

    // Middle of QR code should not be finder pattern
    let mid = matrix.size() / 2;
    assert!(!matrix.is_finder_pattern(mid, mid));
}

#[test]
fn forced_version_sets_the_side() {
    let options = QROptions { type_number: 5, error_correction_level: ErrorCorrectionLevel::M };
    let matrix = QRMatrix::new("Hi", &options).unwrap();
    assert_eq!(matrix.size(), 4 * 5 + 17);
    assert_eq!(matrix.module_count(), 37);
}

#[test]
fn version_above_forty_is_refused() {
    let options = QROptions { type_number: 41, error_correction_level: ErrorCorrectionLevel::Q };
    match QRMatrix::new("Hi", &options) {
        Err(QRError::QRGenerationError(msg)) => assert_eq!(msg, "Invalid QR version: 41"),
        other => panic!("unexpected: {:?}", other.map(|m| m.size())),
    }
}

#[test]
fn too_small_version_is_refused() {
    let options = QROptions { type_number: 1, error_correction_level: ErrorCorrectionLevel::H };
    let long = "a fairly long text that cannot fit into the smallest version of a QR code";
    assert!(matches!(QRMatrix::new(long, &options), Err(QRError::QRGenerationError(_))));
}

#[test]
fn outside_the_matrix_is_light() {
    let matrix = QRMatrix::new("Test", &QROptions::default()).unwrap();
    let n = matrix.size();
    assert!(!matrix.is_dark(n, 0));
    assert!(!matrix.is_dark(0, n));
    assert!(!matrix.is_dark_signed(-1, 0));
    assert!(!matrix.get_neighbor(0, 0, -1, 0));
    assert_eq!(matrix.get_neighbor(5, 5, 1, 1), matrix.is_dark(6, 6));
}

#[test]
fn finder_regions_of_the_three_corners() {
    let matrix = QRMatrix::new("Test", &QROptions::default()).unwrap();
    let n = matrix.size();
    assert_eq!(matrix.finder_region(0, 0), FinderRegion::Outer);
    assert_eq!(matrix.finder_region(1, 1), FinderRegion::Body);
    assert_eq!(matrix.finder_region(3, 3), FinderRegion::Inner);
    assert_eq!(matrix.finder_region(0, n - 1), FinderRegion::Outer);
    assert_eq!(matrix.finder_region(3, n - 4), FinderRegion::Inner);
    assert_eq!(matrix.finder_region(n - 2, 1), FinderRegion::Body);
    assert_eq!(matrix.finder_region(7, 7), FinderRegion::Outside);
    assert_eq!(matrix.finder_region(n - 1, n - 1), FinderRegion::Outside);
    assert!(matrix.is_finder_pattern_outer(6, 2));
    assert!(!matrix.is_finder_pattern_outer(2, 2));
    assert!(matrix.is_finder_pattern_inner(4, 4));
    assert!(!matrix.is_finder_pattern_inner(5, 5));
    // The finder patterns' outer rings are dark, their light rings light.
    assert!(matrix.is_dark(6, 3));
    assert!(!matrix.is_dark(1, 3));
}

#[test]
fn percentages_of_levels() {
    assert_eq!(ErrorCorrectionLevel::L.percentage(), 7);
    assert_eq!(ErrorCorrectionLevel::M.percentage(), 15);
    assert_eq!(ErrorCorrectionLevel::Q.percentage(), 25);
    assert_eq!(ErrorCorrectionLevel::H.percentage(), 30);
    assert_eq!(ErrorCorrectionLevel::default(), ErrorCorrectionLevel::Q);
}

#[test]
fn finder_modules_have_fixed_colours() {
    for (text, version) in [("Test", 0u8), ("Hello, world", 5), ("x", 12)] {
        let opts = QROptions { type_number: version, error_correction_level: ErrorCorrectionLevel::H };
        let m = QRMatrix::new(text, &opts).unwrap();
        let n = m.size();
        for r in 0..n {
            for c in 0..n {
                match m.finder_region(r, c) {
                    FinderRegion::Outer | FinderRegion::Inner => assert!(m.is_dark(r, c)),
                    FinderRegion::Body => assert!(!m.is_dark(r, c)),
                    FinderRegion::Outside => {},
                }
            }
        }
    }
}
