//! Circles.
use vstd::prelude::*;

use crate::geometry::{Circle, Point};
use crate::options::{Options, StrokeOptions};
use crate::plan::{assemble, plan_view, spec_assemble, Bounds, Error, Outline, OutlineView, Plan};
use crate::scalar::{Scalar, ONE_BITS};

verus! {

#[derive(Clone, Copy, Debug)]
pub struct CircleBuilder {
    pub circle: Circle,
    pub options: Options,
}

impl Default for CircleBuilder {
    /// The filled unit circle around the origin.
    fn default() -> (r: CircleBuilder)
        ensures
            r.circle == (Circle { center: Point::spec_zero(), radius: Scalar { bits: ONE_BITS } }),
            r.options == Options::spec_default(),
    {
        CircleBuilder { circle: Circle::unit(), options: Options::default() }
    }
}

impl CircleBuilder {
    /// The circle's plan, before any tessellation.
    pub open spec fn spec_plan(self) -> Result<crate::plan::PlanView, Error> {
        spec_assemble(OutlineView::Circle(self.circle), self.options, Some(Bounds::CircleBox(self.circle)))
    }

    pub fn new(circle: Circle) -> (r: CircleBuilder)
        ensures
            r.circle == circle,
            r.options == Options::spec_default(),
    {
        CircleBuilder::default().with_circle(circle)
    }

    pub fn with_circle(self, circle: Circle) -> (r: CircleBuilder)
        ensures
            r == (CircleBuilder { circle, ..self }),
    {
        CircleBuilder { circle, ..self }
    }

    pub fn with_stroke(self, stroke_width: Scalar) -> (r: CircleBuilder)
        requires
            stroke_width.is_positive_finite(),
        ensures
            r == (CircleBuilder { options: self.options.spec_with_stroke(stroke_width), ..self }),
    {
        CircleBuilder { options: self.options.with_stroke(stroke_width), ..self }
    }

    pub fn with_stroke_opts(self, stroke_options: StrokeOptions) -> (r: CircleBuilder)
        requires
            stroke_options.wf(),
        ensures
            r == (CircleBuilder { options: self.options.spec_with_stroke_opts(stroke_options), ..self }),
    {
        CircleBuilder { options: self.options.with_stroke_opts(stroke_options), ..self }
    }

    pub fn with_tolerance(self, tolerance: Scalar) -> (r: CircleBuilder)
        requires
            tolerance.is_positive_finite(),
        ensures
            r == (CircleBuilder { options: self.options.spec_with_tolerance(tolerance), ..self }),
    {
        CircleBuilder { options: self.options.with_tolerance(tolerance), ..self }
    }

    pub fn with_fill(self) -> (r: CircleBuilder)
        ensures
            r == (CircleBuilder { options: self.options.spec_with_fill(), ..self }),
    {
        CircleBuilder { options: self.options.with_fill(), ..self }
    }

    pub fn options(&self) -> (r: &Options)
        ensures
            *r == self.options,
    {
        &self.options
    }

    /// The square around the circle.
    pub fn bounding_rect(&self) -> (r: Bounds)
        ensures
            r == Bounds::CircleBox(self.circle),
    {
        Bounds::CircleBox(self.circle)
    }

    /// Builds the circle into its plan.
    pub fn plan(self) -> (r: Result<Plan, Error>)
        requires
            self.options.wf(),
        ensures
            plan_view(r) == self.spec_plan(),
            r is Ok,
    {
        let bounds = self.bounding_rect();
        assemble(Outline::Circle(self.circle), self.options, Some(bounds))
    }
}

/// Building the same circle twice gives the same plan, bit for bit: the
/// builder alone decides it.
pub proof fn lemma_plan_repeatable(a: CircleBuilder, b: CircleBuilder, ra: Result<Plan, Error>, rb: Result<Plan, Error>)
    requires
        a == b,
        plan_view(ra) == a.spec_plan(),
        plan_view(rb) == b.spec_plan(),
    ensures
        plan_view(ra) == plan_view(rb),
{
}

} // verus!
