//! The styled QR code: options and the matrix built from them, and its SVG rendering.
use vstd::prelude::*;
use crate::config::{default_options, QRCodeStylingBuilder, QRCodeStylingOptions, valid_dimensions, invalid_dimensions_message};
use crate::error::QRError;
use crate::qr_matrix::{build_error_text, qr_symbol, QRMatrix};
use crate::svg_renderer::{can_render, renderable, svg_text, SvgRenderer};

verus! {

/// A styled QR code: its options and the matrix of its symbol.
pub struct QRCodeStyling {
    options: QRCodeStylingOptions,
    matrix: QRMatrix,
}

/// The matrix `m` is the symbol built for the text and QR options of `o`.
pub open spec fn matrix_of(o: QRCodeStylingOptions, m: QRMatrix) -> bool {
    qr_symbol(o.data@, o.qr_options) == Some((m.side(), m.cells()))
}

/// `e` is the error of a failed build of the matrix of `o`: the one `QRMatrix::new` gives.
pub open spec fn generation_error(o: QRCodeStylingOptions, e: QRError) -> bool {
    e matches QRError::QRGenerationError(msg) && msg@ == build_error_text(o.data@, o.qr_options)
}

/// Building the matrix of the same options twice gives the same matrix, or the same error.
pub proof fn lemma_rebuild_deterministic(o: QRCodeStylingOptions, m1: QRMatrix, m2: QRMatrix, e1: QRError, e2: QRError)
    ensures
        matrix_of(o, m1) && matrix_of(o, m2) ==> m1.side() == m2.side() && m1.cells() == m2.cells(),
        generation_error(o, e1) && generation_error(o, e2) ==> (e1 matches QRError::QRGenerationError(a)
            && e2 matches QRError::QRGenerationError(b) && a@ == b@),
{
}

impl QRCodeStylingBuilder {
    /// Builds the styled code from the collected options: an error where their sizes cannot be
    /// drawn or the symbol cannot be built.
    pub fn build(self) -> (r: Result<QRCodeStyling, QRError>)
        ensures
            !valid_dimensions(self.current().width, self.current().height, self.current().margin)
                ==> (r matches Err(QRError::InvalidOptions(m)) && m@ == invalid_dimensions_message()),
            valid_dimensions(self.current().width, self.current().height, self.current().margin) ==> {
                &&& r is Ok <==> qr_symbol(self.current().data@, self.current().qr_options) is Some
                &&& r matches Ok(q) ==> q.opts() == self.current() && matrix_of(q.opts(), q.mat())
                &&& r matches Ok(q) ==> q.mat().finder_colors()
                &&& r matches Err(e) ==> generation_error(self.current(), e)
            },
    {
        let options = self.build_options()?;
        QRCodeStyling::new(options)
    }
}

impl QRCodeStyling {
    /// The options.
    pub closed spec fn opts(&self) -> QRCodeStylingOptions {
        self.options
    }

    /// The matrix.
    pub closed spec fn mat(&self) -> QRMatrix {
        self.matrix
    }

    /// A builder holding the default options.
    pub fn builder() -> (r: QRCodeStylingBuilder)
        ensures
            default_options(r.current()),
    {
        QRCodeStylingBuilder::new()
    }

    /// Creates the styled code of `options`, building its symbol.
    pub fn new(options: QRCodeStylingOptions) -> (r: Result<Self, QRError>)
        ensures
            r is Ok <==> qr_symbol(options.data@, options.qr_options) is Some,
            r matches Ok(q) ==> q.opts() == options && matrix_of(options, q.mat()),
            r matches Ok(q) ==> q.mat().finder_colors(),
            r matches Ok(q) ==> (options.qr_options.type_number != 0
                ==> q.mat().side() == 4 * options.qr_options.type_number + 17),
            r matches Err(e) ==> generation_error(options, e),
    {
        let matrix = QRMatrix::new(options.data.as_str(), &options.qr_options)?;
        Ok(QRCodeStyling { options, matrix })
    }

    /// Replaces the text and rebuilds the symbol. The text is replaced even where the symbol
    /// cannot be built; the matrix then stays as it was.
    pub fn update(&mut self, data: &str) -> (r: Result<&mut Self, QRError>)
        ensures
            r is Ok <==> qr_symbol(data@, old(self).opts().qr_options) is Some,
            r matches Ok(q) ==> {
                &&& q.opts().data@ == data@
                &&& q.opts() == (QRCodeStylingOptions { data: q.opts().data, ..old(self).opts() })
                &&& matrix_of(q.opts(), q.mat())
                &&& q.mat().finder_colors()
                &&& *final(self) == *final(q)
            },
            r matches Err(e) ==> {
                &&& final(self).opts().data@ == data@
                &&& final(self).opts() == (QRCodeStylingOptions { data: final(self).opts().data, ..old(self).opts() })
                &&& generation_error(final(self).opts(), e)
                &&& final(self).mat() == old(self).mat()
            },
    {
        self.options.data = String::from_str(data);
        self.matrix = QRMatrix::new(self.options.data.as_str(), &self.options.qr_options)?;
        Ok(self)
    }

    /// Renders the code as an SVG document. Each rendering numbers its definitions' ids with a
    /// fresh random number.
    pub fn render_svg(&self) -> (r: Result<String, QRError>)
        requires
            renderable(self.opts(), self.mat().side() as int),
        ensures
            r matches Ok(s) && exists|id: u64| s@ == svg_text(self.opts(), self.mat(), id),
    {
        let renderer = SvgRenderer::new(&self.options);
        let r = renderer.render(&self.matrix);
        assert(r matches Ok(s) && s@ == svg_text(self.opts(), self.mat(), renderer.id()));
        r
    }

    /// Whether the code can be rendered with its current options (see `renderable`).
    pub fn can_render_svg(&self) -> (r: bool)
        ensures
            r == renderable(self.opts(), self.mat().side() as int),
    {
        let count = self.matrix.module_count();
        can_render(&self.options, count)
    }

    /// Number of modules per side of the symbol.
    pub fn module_count(&self) -> (r: usize)
        ensures
            r == self.mat().side(),
            21 <= r <= 177,
    {
        self.matrix.module_count()
    }

    /// The options.
    pub fn options(&self) -> (r: &QRCodeStylingOptions)
        ensures
            *r == self.opts(),
    {
        &self.options
    }

    /// The options, to change; `regenerate` rebuilds the symbol afterwards.
    pub fn options_mut(&mut self) -> (r: &mut QRCodeStylingOptions)
        ensures
            *r == old(self).opts(),
            final(self).opts() == *final(r),
            final(self).mat() == old(self).mat(),
    {
        &mut self.options
    }

    /// Rebuilds the symbol from the current options; where that fails the matrix stays as it was.
    pub fn regenerate(&mut self) -> (r: Result<(), QRError>)
        ensures
            final(self).opts() == old(self).opts(),
            r is Ok <==> qr_symbol(old(self).opts().data@, old(self).opts().qr_options) is Some,
            r is Ok ==> matrix_of(final(self).opts(), final(self).mat()) && final(self).mat().finder_colors(),
            r is Ok ==> (old(self).opts().qr_options.type_number != 0
                ==> final(self).mat().side() == 4 * old(self).opts().qr_options.type_number + 17),
            r matches Err(e) ==> generation_error(old(self).opts(), e) && final(self).mat() == old(self).mat(),
    {
        self.matrix = QRMatrix::new(self.options.data.as_str(), &self.options.qr_options)?;
        Ok(())
    }
}

} // verus!
