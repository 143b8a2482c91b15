//! Free-form polylines, with their bounding rectangle kept up to date point by point.
use vstd::prelude::*;

use crate::geometry::{spec_grow_to, spec_rect_from_points, LineSegment, Point, Rect};
use crate::options::{Options, StrokeOptions};
use crate::plan::{assemble, plan_view, spec_assemble, Bounds, Error, Outline, OutlineView, Plan};
use crate::scalar::Scalar;

verus! {

/// The bounding rectangle of `s` as the builder tracks it: none below two
/// points, then the rectangle of the first two, grown by each later point.
pub open spec fn bounds_of(s: Seq<Point>) -> Option<Rect>
    decreases s.len(),
{
    if s.len() < 2 {
        None
    } else if s.len() == 2 {
        Some(spec_rect_from_points(s[0], s[1]))
    } else {
        match bounds_of(s.drop_last()) {
            Some(r) => Some(spec_grow_to(r, s.last())),
            None => None,
        }
    }
}

/// Once a polyline has two points, each of them lies in the tracked bounding
/// rectangle, and each edge of it passes through one of them: it is the
/// smallest axis-aligned rectangle that holds them all (no coordinate NaN).
pub proof fn lemma_bounds_hold_points(s: Seq<Point>)
    requires
        s.len() >= 2,
        forall|i: int| 0 <= i < s.len() ==> (#[trigger] s[i]).is_number(),
    ensures
        bounds_of(s) is Some,
        forall|i: int| 0 <= i < s.len() ==> bounds_of(s)->Some_0.holds(#[trigger] s[i]),
        exists|i: int| 0 <= i < s.len() && (#[trigger] s[i]).x.key() == bounds_of(s)->Some_0.left.key(),
        exists|i: int| 0 <= i < s.len() && (#[trigger] s[i]).x.key() == bounds_of(s)->Some_0.right.key(),
        exists|i: int| 0 <= i < s.len() && (#[trigger] s[i]).y.key() == bounds_of(s)->Some_0.top.key(),
        exists|i: int| 0 <= i < s.len() && (#[trigger] s[i]).y.key() == bounds_of(s)->Some_0.bottom.key(),
        !bounds_of(s)->Some_0.left.is_nan() && !bounds_of(s)->Some_0.right.is_nan(),
        !bounds_of(s)->Some_0.top.is_nan() && !bounds_of(s)->Some_0.bottom.is_nan(),
    decreases s.len(),
{
    if s.len() == 2 {
        assert(s[0].is_number() && s[1].is_number());
        let r = bounds_of(s)->Some_0;
        assert(r.holds(s[0]) && r.holds(s[1]));
        if r.left.key() == s[0].x.key() { assert(s[0].x.key() == r.left.key()); } else { assert(s[1].x.key() == r.left.key()); }
        if r.right.key() == s[0].x.key() { assert(s[0].x.key() == r.right.key()); } else { assert(s[1].x.key() == r.right.key()); }
        if r.top.key() == s[0].y.key() { assert(s[0].y.key() == r.top.key()); } else { assert(s[1].y.key() == r.top.key()); }
        if r.bottom.key() == s[0].y.key() { assert(s[0].y.key() == r.bottom.key()); } else { assert(s[1].y.key() == r.bottom.key()); }
    } else {
        let prefix = s.drop_last();
        assert forall|i: int| 0 <= i < prefix.len() implies (#[trigger] prefix[i]).is_number() by {
            assert(prefix[i] == s[i]);
        }
        lemma_bounds_hold_points(prefix);
        let q = bounds_of(prefix)->Some_0;
        let p = s.last();
        assert(p == s[s.len() - 1] && p.is_number());
        let r = bounds_of(s)->Some_0;
        assert(r == spec_grow_to(q, p));
        assert forall|i: int| 0 <= i < s.len() implies r.holds(#[trigger] s[i]) by {
            if i < s.len() - 1 {
                assert(q.holds(prefix[i]));
                assert(prefix[i] == s[i]);
            }
        }
        let il = choose|i: int| 0 <= i < prefix.len() && (#[trigger] prefix[i]).x.key() == q.left.key();
        let ir = choose|i: int| 0 <= i < prefix.len() && (#[trigger] prefix[i]).x.key() == q.right.key();
        let it = choose|i: int| 0 <= i < prefix.len() && (#[trigger] prefix[i]).y.key() == q.top.key();
        let ib = choose|i: int| 0 <= i < prefix.len() && (#[trigger] prefix[i]).y.key() == q.bottom.key();
        assert(prefix[il] == s[il] && prefix[ir] == s[ir] && prefix[it] == s[it] && prefix[ib] == s[ib]);
        let n = s.len() - 1;
        if r.left == q.left { assert(s[il].x.key() == r.left.key()); } else { assert(s[n].x.key() == r.left.key()); }
        if r.right == q.right { assert(s[ir].x.key() == r.right.key()); } else { assert(s[n].x.key() == r.right.key()); }
        if r.top == q.top { assert(s[it].y.key() == r.top.key()); } else { assert(s[n].y.key() == r.top.key()); }
        if r.bottom == q.bottom { assert(s[ib].y.key() == r.bottom.key()); } else { assert(s[n].y.key() == r.bottom.key()); }
    }
}

/// The endpoints of each segment in turn.
pub open spec fn segment_points(lines: Seq<LineSegment>) -> Seq<Point>
    decreases lines.len(),
{
    if lines.len() == 0 {
        Seq::empty()
    } else {
        segment_points(lines.drop_last()) + seq![lines.last().from, lines.last().to]
    }
}

/// The rectangle with every edge at `0.0`.
pub open spec fn zero_rect() -> Rect {
    Rect { top: Scalar { bits: 0 }, right: Scalar { bits: 0 }, bottom: Scalar { bits: 0 }, left: Scalar { bits: 0 } }
}

/// A polyline through caller-supplied points, open or closed.
#[derive(Clone, Debug)]
pub struct FreePolyBuilder {
    pub points: Vec<Point>,
    pub open: bool,
    pub bounding_rect: Option<Rect>,
    pub options: Options,
}

impl Default for FreePolyBuilder {
    /// No points, closed, filled.
    fn default() -> (r: FreePolyBuilder)
        ensures
            r.points@ == Seq::<Point>::empty(),
            !r.open,
            r.bounding_rect is None,
            r.options == Options::spec_default(),
            r.wf(),
    {
        FreePolyBuilder { points: Vec::new(), open: false, bounding_rect: None, options: Options::default() }
    }
}

impl FreePolyBuilder {
    /// The tracked bounding rectangle is the one of the points.
    pub open spec fn wf(self) -> bool {
        self.bounding_rect == bounds_of(self.points@)
    }

    /// The polyline's plan, before any tessellation. A fill with fewer than
    /// two points takes its texture coordinates against the zero rectangle.
    pub open spec fn spec_plan(self) -> Result<crate::plan::PlanView, Error> {
        spec_assemble(
            OutlineView::Polygon { points: self.points@, closed: !self.open },
            self.options,
            Some(
                Bounds::Rect(
                    match self.bounding_rect {
                        Some(r) => r,
                        None => zero_rect(),
                    },
                ),
            ),
        )
    }

    pub fn new() -> (r: FreePolyBuilder)
        ensures
            r.points@ == Seq::<Point>::empty(),
            !r.open,
            r.options == Options::spec_default(),
            r.wf(),
    {
        FreePolyBuilder::default()
    }

    pub fn from_points(points: Vec<Point>) -> (r: FreePolyBuilder)
        ensures
            r.points@ == points@,
            !r.open,
            r.options == Options::spec_default(),
            r.wf(),
    {
        FreePolyBuilder::default().with_points(points)
    }

    pub fn from_line_segments(lines: Vec<LineSegment>) -> (r: FreePolyBuilder)
        ensures
            r.points@ == segment_points(lines@),
            !r.open,
            r.options == Options::spec_default(),
            r.wf(),
    {
        FreePolyBuilder::default().with_line_segments(lines)
    }

    /// Appends `point`, growing the bounding rectangle by it alone.
    pub fn with_point(self, point: Point) -> (r: FreePolyBuilder)
        requires
            self.wf(),
        ensures
            r.points@ == self.points@.push(point),
            r.open == self.open,
            r.options == self.options,
            r.wf(),
    {
        let mut points = self.points;
        points.push(point);
        let bounding_rect = match self.bounding_rect {
            Some(rect) => Some(rect.grow_to(point)),
            None => {
                if points.len() == 2 {
                    Some(Rect::from_points(points[0], points[1]))
                } else {
                    None
                }
            },
        };
        proof {
            let s = points@;
            assert(s.drop_last() =~= self.points@);
            if s.len() > 2 {
                assert(self.points@.len() >= 2);
            }
        }
        FreePolyBuilder { points, bounding_rect, ..self }
    }

    pub fn with_points(self, points: Vec<Point>) -> (r: FreePolyBuilder)
        requires
            self.wf(),
        ensures
            r.points@ == self.points@ + points@,
            r.open == self.open,
            r.options == self.options,
            r.wf(),
    {
        let mut this = self;
        let mut i: usize = 0;
        while i < points.len()
            invariant
                i <= points@.len(),
                this.wf(),
                this.points@ == self.points@ + points@.subrange(0, i as int),
                this.open == self.open,
                this.options == self.options,
            decreases points@.len() - i,
        {
            this = this.with_point(points[i]);
            i = i + 1;
            assert(this.points@ =~= self.points@ + points@.subrange(0, i as int));
        }
        assert(points@.subrange(0, points@.len() as int) =~= points@);
        this
    }

    /// Appends the segment's two endpoints.
    pub fn with_line_segment(self, line: LineSegment) -> (r: FreePolyBuilder)
        requires
            self.wf(),
        ensures
            r.points@ == self.points@ + seq![line.from, line.to],
            r.open == self.open,
            r.options == self.options,
            r.wf(),
    {
        let r = self.with_point(line.from).with_point(line.to);
        assert(r.points@ =~= self.points@ + seq![line.from, line.to]);
        r
    }

    /// Appends the endpoints of each segment in turn.
    pub fn with_line_segments(self, lines: Vec<LineSegment>) -> (r: FreePolyBuilder)
        requires
            self.wf(),
        ensures
            r.points@ == self.points@ + segment_points(lines@),
            r.open == self.open,
            r.options == self.options,
            r.wf(),
    {
        let mut this = self;
        let mut i: usize = 0;
        while i < lines.len()
            invariant
                i <= lines@.len(),
                this.wf(),
                this.points@ == self.points@ + segment_points(lines@.subrange(0, i as int)),
                this.open == self.open,
                this.options == self.options,
            decreases lines@.len() - i,
        {
            let line = lines[i];
            this = this.with_line_segment(line);
            i = i + 1;
            assert(lines@.subrange(0, i as int).drop_last() =~= lines@.subrange(0, i - 1 as int));
            assert(this.points@ =~= self.points@ + segment_points(lines@.subrange(0, i as int)));
        }
        assert(lines@.subrange(0, lines@.len() as int) =~= lines@);
        this
    }

    /// Strokes the polyline, leaving it open or closing it.
    pub fn with_stroke(self, stroke_width: Scalar, open: bool) -> (r: FreePolyBuilder)
        requires
            stroke_width.is_positive_finite(),
        ensures
            r == (FreePolyBuilder { open, options: self.options.spec_with_stroke(stroke_width), ..self }),
    {
        FreePolyBuilder { open, options: self.options.with_stroke(stroke_width), ..self }
    }

    pub fn with_stroke_open(self, stroke_width: Scalar) -> (r: FreePolyBuilder)
        requires
            stroke_width.is_positive_finite(),
        ensures
            r == (FreePolyBuilder { open: true, options: self.options.spec_with_stroke(stroke_width), ..self }),
    {
        self.with_stroke(stroke_width, true)
    }

    pub fn with_stroke_closed(self, stroke_width: Scalar) -> (r: FreePolyBuilder)
        requires
            stroke_width.is_positive_finite(),
        ensures
            r == (FreePolyBuilder { open: false, options: self.options.spec_with_stroke(stroke_width), ..self }),
    {
        self.with_stroke(stroke_width, false)
    }

    pub fn with_stroke_opts(self, stroke_options: StrokeOptions, open: bool) -> (r: FreePolyBuilder)
        requires
            stroke_options.wf(),
        ensures
            r == (FreePolyBuilder { open, options: self.options.spec_with_stroke_opts(stroke_options), ..self }),
    {
        FreePolyBuilder { open, options: self.options.with_stroke_opts(stroke_options), ..self }
    }

    pub fn with_stroke_opts_open(self, stroke_options: StrokeOptions) -> (r: FreePolyBuilder)
        requires
            stroke_options.wf(),
        ensures
            r == (FreePolyBuilder { open: true, options: self.options.spec_with_stroke_opts(stroke_options), ..self }),
    {
        self.with_stroke_opts(stroke_options, true)
    }

    pub fn with_stroke_opts_closed(self, stroke_options: StrokeOptions) -> (r: FreePolyBuilder)
        requires
            stroke_options.wf(),
        ensures
            r == (FreePolyBuilder { open: false, options: self.options.spec_with_stroke_opts(stroke_options), ..self }),
    {
        self.with_stroke_opts(stroke_options, false)
    }

    pub fn with_tolerance(self, tolerance: Scalar) -> (r: FreePolyBuilder)
        requires
            tolerance.is_positive_finite(),
        ensures
            r == (FreePolyBuilder { options: self.options.spec_with_tolerance(tolerance), ..self }),
    {
        FreePolyBuilder { options: self.options.with_tolerance(tolerance), ..self }
    }

    pub fn with_fill(self) -> (r: FreePolyBuilder)
        ensures
            r == (FreePolyBuilder { options: self.options.spec_with_fill(), ..self }),
    {
        FreePolyBuilder { options: self.options.with_fill(), ..self }
    }

    pub fn options(&self) -> (r: &Options)
        ensures
            *r == self.options,
    {
        &self.options
    }

    /// The tracked bounding rectangle, or the zero rectangle below two points.
    pub fn bounding_rect(&self) -> (r: Rect)
        ensures
            r == match self.bounding_rect {
                Some(b) => b,
                None => zero_rect(),
            },
    {
        match self.bounding_rect {
            Some(b) => b,
            None => Rect::zero(),
        }
    }

    /// Builds the polyline into its plan.
    pub fn plan(self) -> (r: Result<Plan, Error>)
        requires
            self.options.wf(),
            self.wf(),
        ensures
            plan_view(r) == self.spec_plan(),
            r is Ok,
    {
        let bounds = Bounds::Rect(self.bounding_rect());
        let outline = Outline::Polygon { points: self.points, closed: !self.open };
        assemble(outline, self.options, Some(bounds))
    }
}

/// Building the same polyline twice gives the same plan, bit for bit: the
/// builder alone decides it.
pub proof fn lemma_plan_repeatable(a: FreePolyBuilder, b: FreePolyBuilder, ra: Result<Plan, Error>, rb: Result<Plan, Error>)
    requires
        a == b,
        plan_view(ra) == a.spec_plan(),
        plan_view(rb) == b.spec_plan(),
    ensures
        plan_view(ra) == plan_view(rb),
{
}

} // verus!
