//! Bézier paths, handed to the tessellator as path commands.
use vstd::prelude::*;

use crate::geometry::Point;
use crate::options::{Options, StrokeOptions};
use crate::plan::{assemble, plan_view, spec_assemble, Error, Outline, OutlineView, PathEvent, Plan};
use crate::scalar::Scalar;

verus! {

/// The control points of one segment.
#[derive(Clone, Copy, Debug, PartialEq, Eq, Structural)]
pub enum ControlPoint {
    Quadratic(Point),
    Cubic(Point, Point),
}

/// A curve from wherever the path stands to `end`.
#[derive(Clone, Copy, Debug, PartialEq, Eq, Structural)]
pub struct BezierSegment {
    pub end: Point,
    pub ctrl: ControlPoint,
}

/// The path command that draws `segment`.
pub open spec fn segment_event(segment: BezierSegment) -> PathEvent {
    match segment.ctrl {
        ControlPoint::Quadratic(ctrl) => PathEvent::QuadraticTo { ctrl, to: segment.end },
        ControlPoint::Cubic(ctrl1, ctrl2) => PathEvent::CubicTo { ctrl1, ctrl2, to: segment.end },
    }
}

/// The commands of a path from `start` through `segments`: begin, one curve
/// per segment in order, end (closing the path unless `open`).
pub open spec fn path_events(start: Point, segments: Seq<BezierSegment>, open: bool) -> Seq<PathEvent> {
    seq![PathEvent::Begin { at: start }] + segments.map_values(|s: BezierSegment| segment_event(s)) + seq![
        PathEvent::End { close: !open },
    ]
}

impl BezierSegment {
    pub fn new(end: Point, ctrl: ControlPoint) -> (r: BezierSegment)
        ensures
            r == (BezierSegment { end, ctrl }),
    {
        BezierSegment { end, ctrl }
    }

    pub fn quadratic(end: Point, ctrl: Point) -> (r: BezierSegment)
        ensures
            r == (BezierSegment { end, ctrl: ControlPoint::Quadratic(ctrl) }),
    {
        BezierSegment::new(end, ControlPoint::Quadratic(ctrl))
    }

    pub fn cubic(end: Point, ctrl1: Point, ctrl2: Point) -> (r: BezierSegment)
        ensures
            r == (BezierSegment { end, ctrl: ControlPoint::Cubic(ctrl1, ctrl2) }),
    {
        BezierSegment::new(end, ControlPoint::Cubic(ctrl1, ctrl2))
    }

    fn event(&self) -> (r: PathEvent)
        ensures
            r == segment_event(*self),
    {
        match self.ctrl {
            ControlPoint::Quadratic(ctrl) => PathEvent::QuadraticTo { ctrl, to: self.end },
            ControlPoint::Cubic(ctrl1, ctrl2) => PathEvent::CubicTo { ctrl1, ctrl2, to: self.end },
        }
    }
}

/// A path of Bézier segments from `start`. It can only be stroked: it has no
/// bounding rectangle without flattening its curves.
#[derive(Clone, Debug)]
pub struct BezierBuilder {
    pub start: Point,
    pub segments: Vec<BezierSegment>,
    pub open: bool,
    pub options: Options,
}

impl Default for BezierBuilder {
    /// At the origin, no segments, closed, filled.
    fn default() -> (r: BezierBuilder)
        ensures
            r.start == Point::spec_zero(),
            r.segments@ == Seq::<BezierSegment>::empty(),
            !r.open,
            r.options == Options::spec_default(),
    {
        BezierBuilder { start: Point::zero(), segments: Vec::new(), open: false, options: Options::default() }
    }
}

impl BezierBuilder {
    /// The path's plan: its commands, stroked; a fill is refused.
    pub open spec fn spec_plan(self) -> Result<crate::plan::PlanView, Error> {
        spec_assemble(OutlineView::Path(path_events(self.start, self.segments@, self.open)), self.options, None)
    }

    pub fn new(start: Point) -> (r: BezierBuilder)
        ensures
            r.start == start,
            r.segments@ == Seq::<BezierSegment>::empty(),
            !r.open,
            r.options == Options::spec_default(),
    {
        BezierBuilder { start, ..BezierBuilder::default() }
    }

    pub fn from_bezier_segment(start: Point, segment: BezierSegment) -> (r: BezierBuilder)
        ensures
            r.start == start,
            r.segments@ == seq![segment],
            !r.open,
            r.options == Options::spec_default(),
    {
        let r = BezierBuilder::new(start).with_bezier_segment(segment);
        assert(r.segments@ =~= seq![segment]);
        r
    }

    pub fn from_bezier_segments(start: Point, segments: Vec<BezierSegment>) -> (r: BezierBuilder)
        ensures
            r.start == start,
            r.segments@ == segments@,
            !r.open,
            r.options == Options::spec_default(),
    {
        let r = BezierBuilder::new(start).with_bezier_segments(segments);
        assert(r.segments@ =~= segments@);
        r
    }

    pub fn from_quadratic_segment(start: Point, end: Point, ctrl: Point) -> (r: BezierBuilder)
        ensures
            r.start == start,
            r.segments@ == seq![BezierSegment { end, ctrl: ControlPoint::Quadratic(ctrl) }],
            !r.open,
            r.options == Options::spec_default(),
    {
        BezierBuilder::from_bezier_segment(start, BezierSegment::quadratic(end, ctrl))
    }

    pub fn from_cubic_segment(start: Point, end: Point, ctrl1: Point, ctrl2: Point) -> (r: BezierBuilder)
        ensures
            r.start == start,
            r.segments@ == seq![BezierSegment { end, ctrl: ControlPoint::Cubic(ctrl1, ctrl2) }],
            !r.open,
            r.options == Options::spec_default(),
    {
        BezierBuilder::from_bezier_segment(start, BezierSegment::cubic(end, ctrl1, ctrl2))
    }

    pub fn with_start(self, start: Point) -> (r: BezierBuilder)
        ensures
            r == (BezierBuilder { start, ..self }),
    {
        BezierBuilder { start, ..self }
    }

    pub fn with_bezier_segment(self, segment: BezierSegment) -> (r: BezierBuilder)
        ensures
            r.segments@ == self.segments@.push(segment),
            r.start == self.start,
            r.open == self.open,
            r.options == self.options,
    {
        let mut segments = self.segments;
        segments.push(segment);
        BezierBuilder { segments, ..self }
    }

    pub fn with_bezier_segments(self, segments: Vec<BezierSegment>) -> (r: BezierBuilder)
        ensures
            r.segments@ == self.segments@ + segments@,
            r.start == self.start,
            r.open == self.open,
            r.options == self.options,
    {
        let mut all = self.segments;
        let mut i: usize = 0;
        while i < segments.len()
            invariant
                i <= segments@.len(),
                all@ == self.segments@ + segments@.subrange(0, i as int),
            decreases segments@.len() - i,
        {
            all.push(segments[i]);
            i = i + 1;
            assert(all@ =~= self.segments@ + segments@.subrange(0, i as int));
        }
        assert(segments@.subrange(0, segments@.len() as int) =~= segments@);
        BezierBuilder { segments: all, ..self }
    }

    pub fn with_quadratic_segment(self, end: Point, ctrl: Point) -> (r: BezierBuilder)
        ensures
            r.segments@ == self.segments@.push(BezierSegment { end, ctrl: ControlPoint::Quadratic(ctrl) }),
            r.start == self.start,
            r.open == self.open,
            r.options == self.options,
    {
        self.with_bezier_segment(BezierSegment::quadratic(end, ctrl))
    }

    pub fn with_cubic_segment(self, end: Point, ctrl1: Point, ctrl2: Point) -> (r: BezierBuilder)
        ensures
            r.segments@ == self.segments@.push(BezierSegment { end, ctrl: ControlPoint::Cubic(ctrl1, ctrl2) }),
            r.start == self.start,
            r.open == self.open,
            r.options == self.options,
    {
        self.with_bezier_segment(BezierSegment::cubic(end, ctrl1, ctrl2))
    }

    /// Strokes the path, leaving it open or closing it.
    pub fn with_stroke(self, stroke_width: Scalar, open: bool) -> (r: BezierBuilder)
        requires
            stroke_width.is_positive_finite(),
        ensures
            r == (BezierBuilder { open, options: self.options.spec_with_stroke(stroke_width), ..self }),
    {
        BezierBuilder { open, options: self.options.with_stroke(stroke_width), ..self }
    }

    pub fn with_stroke_open(self, stroke_width: Scalar) -> (r: BezierBuilder)
        requires
            stroke_width.is_positive_finite(),
        ensures
            r == (BezierBuilder { open: true, options: self.options.spec_with_stroke(stroke_width), ..self }),
    {
        self.with_stroke(stroke_width, true)
    }

    pub fn with_stroke_closed(self, stroke_width: Scalar) -> (r: BezierBuilder)
        requires
            stroke_width.is_positive_finite(),
        ensures
            r == (BezierBuilder { open: false, options: self.options.spec_with_stroke(stroke_width), ..self }),
    {
        self.with_stroke(stroke_width, false)
    }

    pub fn with_stroke_opts(self, stroke_options: StrokeOptions, open: bool) -> (r: BezierBuilder)
        requires
            stroke_options.wf(),
        ensures
            r == (BezierBuilder { open, options: self.options.spec_with_stroke_opts(stroke_options), ..self }),
    {
        BezierBuilder { open, options: self.options.with_stroke_opts(stroke_options), ..self }
    }

    pub fn with_stroke_opts_open(self, stroke_options: StrokeOptions) -> (r: BezierBuilder)
        requires
            stroke_options.wf(),
        ensures
            r == (BezierBuilder { open: true, options: self.options.spec_with_stroke_opts(stroke_options), ..self }),
    {
        self.with_stroke_opts(stroke_options, true)
    }

    pub fn with_stroke_opts_closed(self, stroke_options: StrokeOptions) -> (r: BezierBuilder)
        requires
            stroke_options.wf(),
        ensures
            r == (BezierBuilder { open: false, options: self.options.spec_with_stroke_opts(stroke_options), ..self }),
    {
        self.with_stroke_opts(stroke_options, false)
    }

    pub fn with_tolerance(self, tolerance: Scalar) -> (r: BezierBuilder)
        requires
            tolerance.is_positive_finite(),
        ensures
            r == (BezierBuilder { options: self.options.spec_with_tolerance(tolerance), ..self }),
    {
        BezierBuilder { options: self.options.with_tolerance(tolerance), ..self }
    }

    /// Asks for a fill, which building then refuses.
    pub fn with_fill(self) -> (r: BezierBuilder)
        ensures
            r == (BezierBuilder { options: self.options.spec_with_fill(), ..self }),
    {
        BezierBuilder { options: self.options.with_fill(), ..self }
    }

    pub fn options(&self) -> (r: &Options)
        ensures
            *r == self.options,
    {
        &self.options
    }

    /// The path commands: begin at `start`, one curve per segment, end.
    pub fn events(&self) -> (r: Vec<PathEvent>)
        ensures
            r@ == path_events(self.start, self.segments@, self.open),
    {
        let mut r: Vec<PathEvent> = Vec::new();
        r.push(PathEvent::Begin { at: self.start });
        let mut i: usize = 0;
        while i < self.segments.len()
            invariant
                i <= self.segments@.len(),
                r@ == seq![PathEvent::Begin { at: self.start }] + self.segments@.subrange(0, i as int).map_values(
                    |s: BezierSegment| segment_event(s),
                ),
            decreases self.segments@.len() - i,
        {
            r.push(self.segments[i].event());
            i = i + 1;
            assert(r@ =~= seq![PathEvent::Begin { at: self.start }] + self.segments@.subrange(0, i as int).map_values(
                |s: BezierSegment| segment_event(s),
            ));
        }
        r.push(PathEvent::End { close: !self.open });
        assert(self.segments@.subrange(0, self.segments@.len() as int) =~= self.segments@);
        assert(r@ =~= path_events(self.start, self.segments@, self.open));
        r
    }

    /// Builds the path into its plan; a fill is refused with
    /// [`Error::FillNotSupported`].
    pub fn plan(self) -> (r: Result<Plan, Error>)
        requires
            self.options.wf(),
        ensures
            plan_view(r) == self.spec_plan(),
            r is Err <==> self.options.is_fill(),
            r is Err ==> r == Err::<Plan, Error>(Error::FillNotSupported),
    {
        let events = self.events();
        assemble(Outline::Path(events), self.options, None)
    }
}

/// Building the same path twice gives the same plan, bit for bit: the
/// builder alone decides it.
pub proof fn lemma_plan_repeatable(a: BezierBuilder, b: BezierBuilder, ra: Result<Plan, Error>, rb: Result<Plan, Error>)
    requires
        a == b,
        plan_view(ra) == a.spec_plan(),
        plan_view(rb) == b.spec_plan(),
    ensures
        plan_view(ra) == plan_view(rb),
{
}

} // verus!
