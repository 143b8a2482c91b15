//! Straight line segments; they can only be stroked.
use vstd::prelude::*;

use crate::geometry::{LineSegment, Point};
use crate::options::{Options, StrokeOptions};
use crate::plan::{assemble, plan_view, spec_assemble, Error, Outline, OutlineView, Plan};
use crate::scalar::{Scalar, ONE_BITS};

verus! {

/// `2 * DEFAULT_RADIUS`, `100.0`: the length of the default segment.
pub const DEFAULT_LENGTH_BITS: u32 = 0x42C8_0000;

#[derive(Clone, Copy, Debug)]
pub struct LineSegmentBuilder {
    pub line: LineSegment,
    pub options: Options,
}

impl LineSegmentBuilder {
    pub open spec fn spec_default() -> LineSegmentBuilder {
        LineSegmentBuilder {
            line: LineSegment {
                from: Point::spec_zero(),
                to: Point { x: Scalar { bits: DEFAULT_LENGTH_BITS }, y: Scalar { bits: 0 } },
            },
            options: Options::spec_default().spec_with_stroke_opts(
                StrokeOptions { texture_aspect_ratio: Scalar { bits: ONE_BITS }, stroke_width: Scalar { bits: ONE_BITS } },
            ),
        }
    }
}

impl Default for LineSegmentBuilder {
    /// From the origin `100.0` along `x`, stroked with the default stroke (width `1.0`).
    fn default() -> (r: LineSegmentBuilder)
        ensures
            r == LineSegmentBuilder::spec_default(),
    {
        LineSegmentBuilder {
            line: LineSegment::new(Point::zero(), Point::new(Scalar::from_bits(DEFAULT_LENGTH_BITS), Scalar::zero())),
            options: Options::default().with_stroke_opts(StrokeOptions::default()),
        }
    }
}

impl LineSegmentBuilder {
    /// The segment's plan: stroked; a fill is refused.
    pub open spec fn spec_plan(self) -> Result<crate::plan::PlanView, Error> {
        spec_assemble(OutlineView::Segment(self.line), self.options, None)
    }

    pub fn new(line: LineSegment) -> (r: LineSegmentBuilder)
        ensures
            r == (LineSegmentBuilder { line, ..Self::spec_default() }),
    {
        LineSegmentBuilder::default().with_line_segment(line)
    }

    pub fn with_line_segment(self, line: LineSegment) -> (r: LineSegmentBuilder)
        ensures
            r == (LineSegmentBuilder { line, ..self }),
    {
        LineSegmentBuilder { line, ..self }
    }

    pub fn with_stroke(self, stroke_width: Scalar) -> (r: LineSegmentBuilder)
        requires
            stroke_width.is_positive_finite(),
        ensures
            r == (LineSegmentBuilder { options: self.options.spec_with_stroke(stroke_width), ..self }),
    {
        LineSegmentBuilder { options: self.options.with_stroke(stroke_width), ..self }
    }

    pub fn with_stroke_opts(self, stroke_options: StrokeOptions) -> (r: LineSegmentBuilder)
        requires
            stroke_options.wf(),
        ensures
            r == (LineSegmentBuilder { options: self.options.spec_with_stroke_opts(stroke_options), ..self }),
    {
        LineSegmentBuilder { options: self.options.with_stroke_opts(stroke_options), ..self }
    }

    pub fn with_tolerance(self, tolerance: Scalar) -> (r: LineSegmentBuilder)
        requires
            tolerance.is_positive_finite(),
        ensures
            r == (LineSegmentBuilder { options: self.options.spec_with_tolerance(tolerance), ..self }),
    {
        LineSegmentBuilder { options: self.options.with_tolerance(tolerance), ..self }
    }

    /// Asks for a fill, which building then refuses: a segment has no interior.
    pub fn with_fill(self) -> (r: LineSegmentBuilder)
        ensures
            r == (LineSegmentBuilder { options: self.options.spec_with_fill(), ..self }),
    {
        LineSegmentBuilder { options: self.options.with_fill(), ..self }
    }

    pub fn options(&self) -> (r: &Options)
        ensures
            *r == self.options,
    {
        &self.options
    }

    /// Builds the segment into its plan; a fill is refused with
    /// [`Error::FillNotSupported`].
    pub fn plan(self) -> (r: Result<Plan, Error>)
        requires
            self.options.wf(),
        ensures
            plan_view(r) == self.spec_plan(),
            r is Err <==> self.options.is_fill(),
            r is Err ==> r == Err::<Plan, Error>(Error::FillNotSupported),
    {
        assemble(Outline::Segment(self.line), self.options, None)
    }
}

/// Building the same segment twice gives the same plan, bit for bit: the
/// builder alone decides it.
pub proof fn lemma_plan_repeatable(a: LineSegmentBuilder, b: LineSegmentBuilder, ra: Result<Plan, Error>, rb: Result<Plan, Error>)
    requires
        a == b,
        plan_view(ra) == a.spec_plan(),
        plan_view(rb) == b.spec_plan(),
    ensures
        plan_view(ra) == plan_view(rb),
{
}

} // verus!
