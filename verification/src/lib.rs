//! Styled QR codes rendered as SVG documents, with verified geometry and text output.
pub mod config;
pub mod error;
pub mod qr_matrix;
pub mod text;
pub mod types;
pub mod layout;
pub mod figures;
pub mod paint;
pub mod svg_renderer;
pub mod qr_code_styling;
pub mod raster_renderer;
