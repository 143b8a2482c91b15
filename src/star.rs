//! Regular stars.
use vstd::prelude::*;

use crate::geometry::{Circle, Point};
use crate::options::{Options, StrokeOptions};
use crate::plan::{assemble, plan_view, spec_assemble, Bounds, Error, Outline, OutlineView, Plan};
use crate::ring::{star_corners, star_points};
use crate::scalar::Scalar;
use crate::scalar::HALF_BITS;
use crate::{default_start_angle, DEFAULT_RADIUS_BITS, NORTH_ANGLE_BITS};

verus! {

/// A regular star with `tips` tips on `circle`, the first at `start_angle`,
/// and its inner corners on the circle scaled by `inner_radius_over_radius`.
#[derive(Clone, Copy, Debug)]
pub struct StarBuilder {
    pub circle: Circle,
    pub inner_radius_over_radius: Scalar,
    pub tips: u32,
    pub start_angle: Scalar,
    pub options: Options,
}

impl Default for StarBuilder {
    /// A filled five-tipped star of radius `50.0` around the origin, inner
    /// radius half of it, pointing north.
    fn default() -> (r: StarBuilder)
        ensures
            r == Self::spec_default(),
    {
        StarBuilder {
            circle: Circle::from_radius(Scalar::from_bits(DEFAULT_RADIUS_BITS)),
            inner_radius_over_radius: Scalar::from_bits(HALF_BITS),
            tips: 5,
            start_angle: default_start_angle(),
            options: Options::default(),
        }
    }
}

impl StarBuilder {
    /// The star's plan, before any tessellation.
    pub open spec fn spec_plan(self) -> Result<crate::plan::PlanView, Error> {
        spec_assemble(
            OutlineView::Ring {
                circle: self.circle,
                inner_radius_ratio: self.inner_radius_over_radius,
                start_angle: self.start_angle,
                points: star_points(self.tips as nat),
            },
            self.options,
            Some(Bounds::CircleBox(self.circle)),
        )
    }

    /// The default star with `tips` tips.
    pub fn new(tips: u32) -> (r: StarBuilder)
        requires
            tips >= 3,
        ensures
            r == (StarBuilder { tips, ..Self::spec_default() }),
    {
        StarBuilder::default().with_tips(tips)
    }

    pub open spec fn spec_default() -> StarBuilder {
        StarBuilder {
            circle: Circle {
                center: Point { x: Scalar { bits: 0 }, y: Scalar { bits: 0 } },
                radius: Scalar { bits: DEFAULT_RADIUS_BITS },
            },
            inner_radius_over_radius: Scalar { bits: HALF_BITS },
            tips: 5,
            start_angle: Scalar { bits: NORTH_ANGLE_BITS },
            options: Options::spec_default(),
        }
    }

    pub fn pentagram() -> (r: StarBuilder)
        ensures
            r == (StarBuilder { tips: 5, ..Self::spec_default() }),
    {
        StarBuilder::new(5)
    }

    pub fn hexagram() -> (r: StarBuilder)
        ensures
            r == (StarBuilder { tips: 6, ..Self::spec_default() }),
    {
        StarBuilder::new(6)
    }

    /// A star needs at least three tips.
    pub fn with_tips(self, tips: u32) -> (r: StarBuilder)
        requires
            tips >= 3,
        ensures
            r == (StarBuilder { tips, ..self }),
    {
        StarBuilder { tips, ..self }
    }

    /// The lower the ratio of inner to outer radius, the pointier the star;
    /// it must lie in `(0, 1]`.
    pub fn with_inner_radius_ratio(self, inner_radius_over_radius: Scalar) -> (r: StarBuilder)
        requires
            inner_radius_over_radius.is_unit_ratio(),
        ensures
            r == (StarBuilder { inner_radius_over_radius, ..self }),
    {
        StarBuilder { inner_radius_over_radius, ..self }
    }

    pub fn with_circle(self, circle: Circle) -> (r: StarBuilder)
        ensures
            r == (StarBuilder { circle, ..self }),
    {
        StarBuilder { circle, ..self }
    }

    pub fn with_center_and_radius(self, center: Point, radius: Scalar) -> (r: StarBuilder)
        ensures
            r == (StarBuilder { circle: Circle { center, radius }, ..self }),
    {
        self.with_circle(Circle::new(center, radius))
    }

    /// Places the first tip at `start_angle` radians, counter-clockwise from east.
    pub fn with_rotation(self, start_angle: Scalar) -> (r: StarBuilder)
        ensures
            r == (StarBuilder { start_angle, ..self }),
    {
        StarBuilder { start_angle, ..self }
    }

    pub fn with_stroke(self, stroke_width: Scalar) -> (r: StarBuilder)
        requires
            stroke_width.is_positive_finite(),
        ensures
            r == (StarBuilder { options: self.options.spec_with_stroke(stroke_width), ..self }),
    {
        StarBuilder { options: self.options.with_stroke(stroke_width), ..self }
    }

    pub fn with_stroke_opts(self, stroke_options: StrokeOptions) -> (r: StarBuilder)
        requires
            stroke_options.wf(),
        ensures
            r == (StarBuilder { options: self.options.spec_with_stroke_opts(stroke_options), ..self }),
    {
        StarBuilder { options: self.options.with_stroke_opts(stroke_options), ..self }
    }

    pub fn with_tolerance(self, tolerance: Scalar) -> (r: StarBuilder)
        requires
            tolerance.is_positive_finite(),
        ensures
            r == (StarBuilder { options: self.options.spec_with_tolerance(tolerance), ..self }),
    {
        StarBuilder { options: self.options.with_tolerance(tolerance), ..self }
    }

    pub fn with_fill(self) -> (r: StarBuilder)
        ensures
            r == (StarBuilder { options: self.options.spec_with_fill(), ..self }),
    {
        StarBuilder { options: self.options.with_fill(), ..self }
    }

    pub fn options(&self) -> (r: &Options)
        ensures
            *r == self.options,
    {
        &self.options
    }

    /// The square around the circle.
    pub fn bounding_rect(&self) -> (r: Bounds)
        ensures
            r == Bounds::CircleBox(self.circle),
    {
        Bounds::CircleBox(self.circle)
    }

    /// The corners: `2 * tips` points at equal steps of `π / tips`, tips on
    /// the outer circle at even steps, inner corners at odd ones.
    pub fn points(&self) -> (r: Vec<crate::plan::RingPoint>)
        ensures
            r@ == star_points(self.tips as nat),
            r@.len() == 2 * self.tips,
            forall|j: int|
                0 <= j < r@.len() ==> {
                    &&& #[trigger] r@[j].ring == if j % 2 == 0 {
                        crate::plan::Ring::Outer
                    } else {
                        crate::plan::Ring::Inner
                    }
                    &&& r@[j].step == j
                    &&& r@[j].steps == 2 * self.tips
                },
    {
        star_corners(self.tips)
    }

    /// Builds the star into its plan: a filled or stroked closed ring.
    pub fn plan(self) -> (r: Result<Plan, Error>)
        requires
            self.options.wf(),
            self.tips >= 3,
            self.inner_radius_over_radius.is_unit_ratio(),
        ensures
            plan_view(r) == self.spec_plan(),
            r is Ok,
    {
        let bounds = self.bounding_rect();
        let points = self.points();
        let outline = Outline::Ring {
            circle: self.circle,
            inner_radius_ratio: self.inner_radius_over_radius,
            start_angle: self.start_angle,
            points,
        };
        assemble(outline, self.options, Some(bounds))
    }
}

/// Building the same star twice gives the same plan, bit for bit: the
/// builder alone decides it.
pub proof fn lemma_plan_repeatable(a: StarBuilder, b: StarBuilder, ra: Result<Plan, Error>, rb: Result<Plan, Error>)
    requires
        a == b,
        plan_view(ra) == a.spec_plan(),
        plan_view(rb) == b.spec_plan(),
    ensures
        plan_view(ra) == plan_view(rb),
{
}

} // verus!
