use qr_code_styling::config::{
    BackgroundOptions, Color, ColorStop, CornersDotOptions, CornersSquareOptions, Direction, DotsOptions, Gradient,
    ImageOptions,
};
use qr_code_styling::config::{QROptions, QRCodeStylingOptions};
use qr_code_styling::qr_matrix::QRMatrix;
use qr_code_styling::error::QRError;
use qr_code_styling::layout::calculate_image_hide_area;
use qr_code_styling::qr_code_styling::QRCodeStyling;
use qr_code_styling::types::{CornerDotType, CornerSquareType, DotType, GradientType, ShapeType};

#[test]
fn test_basic_creation() {
    let qr = QRCodeStyling::builder()
        .data("https://example.com")
        .build()
        .unwrap();

    assert!(qr.module_count() >= 21);
}

#[test]
fn test_render_svg() {
    let qr = QRCodeStyling::builder()
        .data("Test")
        .width(200)
        .height(200)
        .build()
        .unwrap();

    let svg = qr.render_svg().unwrap();
    assert!(svg.contains("<?xml"));
    assert!(svg.contains("<svg"));
    assert!(svg.contains("</svg>"));
}

#[test]
fn test_update() {
    let mut qr = QRCodeStyling::builder()
        .data("First")
        .build()
        .unwrap();

    let count1 = qr.module_count();

    qr.update("This is a much longer string that should result in a larger QR code")
        .unwrap();

    let count2 = qr.module_count();

    // Longer data should result in larger QR code
    assert!(count2 >= count1);
}

#[test]
fn test_with_dot_options() {
    let qr = QRCodeStyling::builder()
        .data("Test")
        .dots_options(DotsOptions::new(DotType::Dots))
        .build()
        .unwrap();

    let svg = qr.render_svg().unwrap();
    assert!(svg.contains("circle"));
}

#[test]
fn default_document_layout() {
    // 300 x 300, 21 modules: modules of 14 pixels, the code starts at (3, 3).
    let qr = QRCodeStyling::builder().data("Test").build().unwrap();
    assert_eq!(qr.module_count(), 21);
    let svg = qr.render_svg().unwrap();
    assert!(svg.starts_with("<?xml version=\"1.0\" encoding=\"UTF-8\"?>\n<svg xmlns=\"http://www.w3.org/2000/svg\" xmlns:xlink=\"http://www.w3.org/1999/xlink\" width=\"300\" height=\"300\" viewBox=\"0 0 300 300\">\n<defs>\n"));
    assert!(svg.ends_with("\n</svg>"));
    // Top-left finder ring: 7 modules of 14 pixels.
    assert!(svg.contains("<rect x=\"3\" y=\"3\" width=\"98\" height=\"98\" fill=\"#000000\""));
    // Top-right finder ring starts 14 modules to the right; it is turned a quarter turn.
    assert!(svg.contains("<path clip-rule=\"evenodd\" d=\"M 199 3v 98h 98v -98zM 213 17h 70v 70h -70z\" transform=\"rotate(90,248,52)\"/>"));
    // Bottom-left finder center: 3 modules at (3 + 28, 199 + 28), turned back.
    assert!(svg.contains("<rect x=\"31\" y=\"227\" width=\"42\" height=\"42\" transform=\"rotate(-90,52,248)\"/>"));
    // White background over the whole canvas.
    assert!(svg.contains("<rect x=\"0\" y=\"0\" width=\"300\" height=\"300\" fill=\"#ffffff\""));
    assert!(!svg.contains("crispEdges"));
}

#[test]
fn unrounded_sizes_are_written_with_decimals() {
    let mut dots = DotsOptions::new(DotType::Square);
    dots.round_size = false;
    let qr = QRCodeStyling::builder().data("Test").width(100).height(100).dots_options(dots).build().unwrap();
    let svg = qr.render_svg().unwrap();
    // 100 / 21 = 4.761 pixels per module, written to the thousandth.
    assert!(svg.contains("width=\"33.327\""));
    assert!(svg.contains("shape-rendering=\"crispEdges\""));
}

#[test]
fn sizes_that_cannot_be_drawn_are_refused() {
    let r = QRCodeStyling::builder().data("x").width(100).height(50).margin(25).build();
    match r {
        Err(QRError::InvalidOptions(m)) => {
            assert_eq!(m, "width and height must be positive and larger than twice the margin")
        },
        _ => panic!("expected an error"),
    }
    assert!(QRCodeStyling::builder().data("x").width(0).build().is_err());
    assert!(QRCodeStyling::builder().data("x").width(100).height(50).margin(24).build().is_ok());
}

#[test]
fn regenerate_after_options_change() {
    let mut qr = QRCodeStyling::builder().data("Test").build().unwrap();
    assert_eq!(qr.module_count(), 21);
    qr.options_mut().qr_options.type_number = 3;
    qr.regenerate().unwrap();
    assert_eq!(qr.module_count(), 29);
    assert_eq!(qr.options().qr_options.type_number, 3);
    qr.options_mut().qr_options.type_number = 50;
    assert!(qr.regenerate().is_err());
    assert_eq!(qr.module_count(), 29);
}

#[test]
fn failed_update_keeps_the_matrix() {
    let mut qr = QRCodeStyling::builder().data("Test").build().unwrap();
    qr.options_mut().qr_options.type_number = 1;
    qr.regenerate().unwrap();
    let long = "a long text that does not fit into a version one symbol at quartile level";
    assert!(qr.update(long).is_err());
    assert_eq!(qr.options().data, long);
    assert_eq!(qr.module_count(), 21);
}

#[test]
fn rounded_dots_and_colors() {
    let dots = DotsOptions { dot_type: DotType::Rounded, color: Color::new(0x12, 0xab, 0xef), gradient: None, round_size: true };
    let qr = QRCodeStyling::builder().data("Test").dots_options(dots).build().unwrap();
    let svg = qr.render_svg().unwrap();
    assert!(svg.contains("fill=\"#12abef\""));
    assert!(svg.contains("<path d=\"M "));
}

#[test]
fn classy_and_extra_rounded_dots_render() {
    for t in [DotType::Classy, DotType::ClassyRounded, DotType::ExtraRounded] {
        let qr = QRCodeStyling::builder().data("Test").dots_options(DotsOptions::new(t)).build().unwrap();
        let svg = qr.render_svg().unwrap();
        assert!(svg.contains(", 0, 0, 0, "));
    }
}

#[test]
fn radial_background_gradient() {
    let gradient = Gradient {
        gradient_type: GradientType::Radial,
        rotation: Direction { x: 1, y: 0 },
        color_stops: vec![
            ColorStop { offset: 0, color: Color::white() },
            ColorStop { offset: 350, color: Color::new(1, 2, 3) },
        ],
    };
    let bg = BackgroundOptions { color: Color::white(), gradient: Some(gradient), round: 0 };
    let qr = QRCodeStyling::builder().data("Test").background_options(bg).build().unwrap();
    let svg = qr.render_svg().unwrap();
    assert!(svg.contains("gradientUnits=\"userSpaceOnUse\" fx=\"150\" fy=\"150\" cx=\"150\" cy=\"150\" r=\"150\">\n<stop offset=\"0%\" stop-color=\"#ffffff\"/>\n<stop offset=\"35%\" stop-color=\"#010203\"/>\n</radialGradient>"));
}

#[test]
fn linear_gradient_end_points() {
    // Along the x axis over the whole canvas: from the left edge to the right edge.
    let gradient = Gradient {
        gradient_type: GradientType::Linear,
        rotation: Direction { x: 1, y: 0 },
        color_stops: vec![ColorStop { offset: 1000, color: Color::black() }],
    };
    let dots = DotsOptions { dot_type: DotType::Square, color: Color::black(), gradient: Some(gradient.clone()), round_size: true };
    let qr = QRCodeStyling::builder().data("Test").dots_options(dots).build().unwrap();
    let svg = qr.render_svg().unwrap();
    assert!(svg.contains("x1=\"0\" y1=\"150\" x2=\"300\" y2=\"150\""));
    assert!(svg.contains("<stop offset=\"100%\""));
    // Half way between the axes (tan = 1/2) for the top-left finder ring of 98 pixels at (3, 3):
    // from (3, 52 - 24.5) to (101, 52 + 24.5), rounded away from zero.
    let g2 = Gradient { rotation: Direction { x: 2, y: 1 }, ..gradient };
    let sq = CornersSquareOptions { square_type: CornerSquareType::Dot, color: Color::black(), gradient: Some(g2) };
    let qr = QRCodeStyling::builder().data("Test").corners_square_options(sq).build().unwrap();
    let svg = qr.render_svg().unwrap();
    assert!(svg.contains("x1=\"3\" y1=\"28\" x2=\"101\" y2=\"77\""));
    assert!(svg.contains(" 0 1 0 0.1 0zm 0 14a 35 35 0 1 1 -0.1 0Z\""));
}

#[test]
fn round_background_clip() {
    let bg = BackgroundOptions { color: Color::white(), gradient: None, round: 500 };
    let qr = QRCodeStyling::builder().data("Test").width(300).height(200).background_options(bg).build().unwrap();
    let svg = qr.render_svg().unwrap();
    assert!(svg.contains("<rect x=\"50\" y=\"0\" width=\"200\" height=\"200\" rx=\"50\"/></clipPath>"));
}

#[test]
fn corner_dots_as_circles() {
    let cd = CornersDotOptions { dot_type: CornerDotType::Dot, color: Color::black(), gradient: None };
    let qr = QRCodeStyling::builder().data("Test").corners_dot_options(cd).build().unwrap();
    let svg = qr.render_svg().unwrap();
    assert!(svg.contains("<circle cx=\"52\" cy=\"52\" r=\"21\" transform=\"rotate(0,52,52)\"/>"));
}

#[test]
fn circle_shape_adds_extra_dots() {
    let square = QRCodeStyling::builder().data("Test").build().unwrap().render_svg().unwrap();
    let circle = QRCodeStyling::builder().data("Test").shape(ShapeType::Circle).build().unwrap().render_svg().unwrap();
    assert!(circle.matches("<rect").count() > 10);
    assert!(square.contains("<svg"));
    // 300 / sqrt(2) = 212.13: modules of 10 pixels.
    assert!(circle.contains("width=\"70\" height=\"70\""));
}

#[test]
fn embedded_image_is_a_data_url() {
    let png = vec![0x89u8, 0x50, 0x4E, 0x47, 1, 2];
    let qr = QRCodeStyling::builder()
        .data("Test")
        .image(png)
        .image_options(ImageOptions { hide_background_dots: true, image_size: 400, margin: 0 })
        .build()
        .unwrap();
    let svg = qr.render_svg().unwrap();
    assert!(svg.contains("<image href=\"data:image/png;base64,iVBORwEC\" xlink:href=\"data:image/png;base64,iVBORwEC\""));
    let jpeg = vec![0xFFu8, 0xD8, 0];
    let qr = QRCodeStyling::builder().data("Test").image(jpeg).build().unwrap();
    assert!(qr.render_svg().unwrap().contains("data:image/jpeg;base64,/9gA\""));
}

#[test]
fn hidden_area_for_images() {
    let o = QRCodeStylingOptions::default();
    // 0.4 of 25% of 21 * 21 = 44.1 modules: a square of side 6, made odd: 5.
    assert_eq!(calculate_image_hide_area(&o, 21), (5, 5));
    // Never more than count - 14.
    let mut big = QRCodeStylingOptions::default();
    big.image_options.image_size = 1000;
    assert_eq!(calculate_image_hide_area(&big, 21), (7, 7));
}

#[test]
fn failed_builds_give_the_encoder_message() {
    let mut qr = QRCodeStyling::builder().data("Test").build().unwrap();
    qr.options_mut().qr_options.type_number = 1;
    qr.regenerate().unwrap();
    let long = "a long text that does not fit into a version one symbol at quartile level";
    match qr.update(long) {
        Err(QRError::QRGenerationError(m)) => assert_eq!(m, "Specified version too low to contain data"),
        _ => panic!("expected an error"),
    }
    qr.options_mut().qr_options.type_number = 41;
    match qr.regenerate() {
        Err(QRError::QRGenerationError(m)) => assert_eq!(m, "Invalid QR version: 41"),
        _ => panic!("expected an error"),
    }
    let huge = "x".repeat(5000);
    match QRCodeStyling::builder().data(&huge).build() {
        Err(QRError::QRGenerationError(m)) => assert_eq!(m, "Data too big to be encoded"),
        _ => panic!("expected an error"),
    }
}

#[test]
fn builder_holds_the_default_options() {
    let qr = QRCodeStyling::builder().data("Test").build().unwrap();
    let o = qr.options();
    assert_eq!((o.width, o.height, o.margin), (300, 300, 0));
    assert_eq!(o.shape, ShapeType::Square);
    assert!(o.dots_options.round_size);
    assert_eq!(o.background_options.color, Color::white());
    assert!(qr.can_render_svg());
}

#[test]
fn circle_without_room_renders_without_extra_dots() {
    let mut o = QRCodeStylingOptions::default();
    o.data = "Test".to_string();
    o.width = 200;
    o.height = 200;
    o.margin = 100;
    o.shape = ShapeType::Circle;
    let qr = QRCodeStyling::new(o).unwrap();
    assert!(qr.can_render_svg());
    let svg = qr.render_svg().unwrap();
    assert!(svg.ends_with("\n</svg>"));
    // Dots of no size at the center of the canvas, and no extra dots around them.
    assert!(svg.contains("<rect x=\"100\" y=\"100\" width=\"0\" height=\"0\""));
}

#[test]
fn cloned_matrix_has_the_same_modules() {
    let m = QRMatrix::new("Hello", &QROptions::default()).unwrap();
    let c = m.clone();
    assert_eq!(c.size(), m.size());
    for r in 0..m.size() {
        for k in 0..m.size() {
            assert_eq!(c.is_dark(r, k), m.is_dark(r, k));
        }
    }
}
