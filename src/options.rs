//! Fill-or-stroke configuration shared by every shape builder.
use vstd::prelude::*;

use crate::scalar::{Scalar, ONE_BITS};

verus! {

/// The tessellator's default curve-flattening tolerance, `0.1`.
pub const DEFAULT_TOLERANCE_BITS: u32 = 0x3DCC_CCCD;

/// How a stroked outline is drawn.
#[derive(Clone, Copy, Debug, PartialEq, Eq, Structural)]
pub struct StrokeOptions {
    /// Sets how fast the `y` texture coordinate reaches `1.0` along the stroke;
    /// a stroked `Poly` assumes a tiling sampler.
    pub texture_aspect_ratio: Scalar,
    pub stroke_width: Scalar,
}

impl Default for StrokeOptions {
    /// Width `1.0`, aspect ratio `1.0`.
    fn default() -> (r: StrokeOptions)
        ensures
            r.texture_aspect_ratio.bits == ONE_BITS,
            r.stroke_width.bits == ONE_BITS,
    {
        StrokeOptions { texture_aspect_ratio: Scalar::one(), stroke_width: Scalar::one() }
    }
}

impl StrokeOptions {
    /// Width and aspect ratio are both greater than zero and finite.
    pub open spec fn wf(self) -> bool {
        self.stroke_width.is_positive_finite() && self.texture_aspect_ratio.is_positive_finite()
    }

    /// The default stroke at the given width.
    pub fn new(stroke_width: Scalar) -> (r: StrokeOptions)
        requires
            stroke_width.is_positive_finite(),
        ensures
            r.texture_aspect_ratio.bits == ONE_BITS,
            r.stroke_width == stroke_width,
    {
        StrokeOptions::default().with_stroke_width(stroke_width)
    }

    pub fn with_stroke_width(self, stroke_width: Scalar) -> (r: StrokeOptions)
        requires
            stroke_width.is_positive_finite(),
        ensures
            r == (StrokeOptions { stroke_width, ..self }),
    {
        StrokeOptions { stroke_width, ..self }
    }

    pub fn with_texture_aspect_ratio(self, texture_aspect_ratio: Scalar) -> (r: StrokeOptions)
        requires
            texture_aspect_ratio.is_positive_finite(),
        ensures
            r == (StrokeOptions { texture_aspect_ratio, ..self }),
    {
        StrokeOptions { texture_aspect_ratio, ..self }
    }
}

/// What the fill tessellator is handed.
#[derive(Clone, Copy, Debug, PartialEq, Eq, Structural)]
pub struct FillParams {
    pub tolerance: Scalar,
}

/// What the stroke tessellator is handed.
#[derive(Clone, Copy, Debug, PartialEq, Eq, Structural)]
pub struct StrokeParams {
    pub tolerance: Scalar,
    pub line_width: Scalar,
}

/// Fill (no stroke options) or stroke, and the curve tolerance.
#[derive(Clone, Copy, Debug, PartialEq, Eq, Structural)]
pub struct Options {
    pub stroke_options: Option<StrokeOptions>,
    pub tolerance: Scalar,
}

impl Default for Options {
    /// Fill, at the default tolerance.
    fn default() -> (r: Options)
        ensures
            r == Options::spec_default(),
    {
        Options { stroke_options: None, tolerance: Scalar::from_bits(DEFAULT_TOLERANCE_BITS) }
    }
}

impl Options {
    /// Fill, at the default tolerance.
    pub open spec fn spec_default() -> Options {
        Options { stroke_options: None, tolerance: Scalar { bits: DEFAULT_TOLERANCE_BITS } }
    }

    /// A positive finite tolerance, and a well-formed stroke if any.
    pub open spec fn wf(self) -> bool {
        &&& self.tolerance.is_positive_finite()
        &&& (self.stroke_options matches Some(s) ==> s.wf())
    }

    pub open spec fn is_fill(self) -> bool {
        self.stroke_options is None
    }

    pub open spec fn spec_with_fill(self) -> Options {
        Options { stroke_options: None, ..self }
    }

    /// Strokes at `stroke_width`, keeping the aspect ratio of a stroke already set.
    pub open spec fn spec_with_stroke(self, stroke_width: Scalar) -> Options {
        Options {
            stroke_options: Some(
                match self.stroke_options {
                    Some(s) => StrokeOptions { stroke_width, ..s },
                    None => StrokeOptions { texture_aspect_ratio: Scalar { bits: ONE_BITS }, stroke_width },
                },
            ),
            ..self
        }
    }

    pub open spec fn spec_with_stroke_opts(self, stroke_options: StrokeOptions) -> Options {
        Options { stroke_options: Some(stroke_options), ..self }
    }

    pub open spec fn spec_with_tolerance(self, tolerance: Scalar) -> Options {
        Options { tolerance, ..self }
    }

    pub fn new() -> (r: Options)
        ensures
            r == Options::spec_default(),
    {
        Options::default()
    }

    pub fn with_fill(self) -> (r: Options)
        ensures
            r == self.spec_with_fill(),
    {
        Options { stroke_options: None, ..self }
    }

    pub fn with_stroke(self, stroke_width: Scalar) -> (r: Options)
        requires
            stroke_width.is_positive_finite(),
        ensures
            r == self.spec_with_stroke(stroke_width),
    {
        let stroke = match self.stroke_options {
            Some(s) => s.with_stroke_width(stroke_width),
            None => StrokeOptions::new(stroke_width),
        };
        Options { stroke_options: Some(stroke), ..self }
    }

    pub fn with_stroke_opts(self, stroke_options: StrokeOptions) -> (r: Options)
        requires
            stroke_options.wf(),
        ensures
            r == self.spec_with_stroke_opts(stroke_options),
    {
        Options { stroke_options: Some(stroke_options), ..self }
    }

    pub fn with_tolerance(self, tolerance: Scalar) -> (r: Options)
        requires
            tolerance.is_positive_finite(),
        ensures
            r == self.spec_with_tolerance(tolerance),
    {
        Options { tolerance, ..self }
    }

    /// The fill tessellator's settings; only for a filled shape.
    pub fn fill_options(&self) -> (r: FillParams)
        requires
            self.is_fill(),
        ensures
            r.tolerance == self.tolerance,
    {
        FillParams { tolerance: self.tolerance }
    }

    /// The stroke tessellator's settings; only for a stroked shape.
    pub fn stroke_options(&self) -> (r: StrokeParams)
        requires
            !self.is_fill(),
        ensures
            r.tolerance == self.tolerance,
            r.line_width == self.stroke_options->Some_0.stroke_width,
    {
        let stroke = self.stroke_options.unwrap();
        StrokeParams { tolerance: self.tolerance, line_width: stroke.stroke_width }
    }
}

} // verus!
