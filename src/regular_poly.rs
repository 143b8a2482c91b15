//! Regular polygons.
use vstd::prelude::*;

use crate::geometry::{Circle, Point};
use crate::options::{Options, StrokeOptions};
use crate::plan::{assemble, plan_view, spec_assemble, Bounds, Error, Outline, OutlineView, Plan};
use crate::ring::{polygon_corners, polygon_points};
use crate::scalar::Scalar;
use crate::{default_start_angle, DEFAULT_RADIUS_BITS, NORTH_ANGLE_BITS};

verus! {

/// A regular polygon with `sides` corners on `circle`, the first at `start_angle`.
#[derive(Clone, Copy, Debug)]
pub struct RegularPolyBuilder {
    pub circle: Circle,
    pub sides: u32,
    pub start_angle: Scalar,
    pub options: Options,
}

impl Default for RegularPolyBuilder {
    /// A filled triangle of radius `50.0` around the origin, pointing north.
    fn default() -> (r: RegularPolyBuilder)
        ensures
            r == Self::spec_default(),
    {
        RegularPolyBuilder {
            circle: Circle::from_radius(Scalar::from_bits(DEFAULT_RADIUS_BITS)),
            sides: 3,
            start_angle: default_start_angle(),
            options: Options::default(),
        }
    }
}

impl RegularPolyBuilder {
    /// The polygon's plan, before any tessellation.
    pub open spec fn spec_plan(self) -> Result<crate::plan::PlanView, Error> {
        spec_assemble(
            OutlineView::Ring {
                circle: self.circle,
                inner_radius_ratio: Scalar { bits: crate::scalar::ONE_BITS },
                start_angle: self.start_angle,
                points: polygon_points(self.sides as nat),
            },
            self.options,
            Some(Bounds::CircleBox(self.circle)),
        )
    }

    /// The default polygon with `sides` sides.
    pub fn new(sides: u32) -> (r: RegularPolyBuilder)
        requires
            sides >= 3,
        ensures
            r == (RegularPolyBuilder { sides, ..Self::spec_default() }),
    {
        RegularPolyBuilder::default().with_sides(sides)
    }

    pub open spec fn spec_default() -> RegularPolyBuilder {
        RegularPolyBuilder {
            circle: Circle {
                center: Point { x: Scalar { bits: 0 }, y: Scalar { bits: 0 } },
                radius: Scalar { bits: DEFAULT_RADIUS_BITS },
            },
            sides: 3,
            start_angle: Scalar { bits: NORTH_ANGLE_BITS },
            options: Options::spec_default(),
        }
    }

    pub fn triangle() -> (r: RegularPolyBuilder)
        ensures
            r == (RegularPolyBuilder { sides: 3, ..Self::spec_default() }),
    {
        RegularPolyBuilder::new(3)
    }

    pub fn square() -> (r: RegularPolyBuilder)
        ensures
            r == (RegularPolyBuilder { sides: 4, ..Self::spec_default() }),
    {
        RegularPolyBuilder::new(4)
    }

    pub fn pentagon() -> (r: RegularPolyBuilder)
        ensures
            r == (RegularPolyBuilder { sides: 5, ..Self::spec_default() }),
    {
        RegularPolyBuilder::new(5)
    }

    pub fn hexagon() -> (r: RegularPolyBuilder)
        ensures
            r == (RegularPolyBuilder { sides: 6, ..Self::spec_default() }),
    {
        RegularPolyBuilder::new(6)
    }

    pub fn octagon() -> (r: RegularPolyBuilder)
        ensures
            r == (RegularPolyBuilder { sides: 8, ..Self::spec_default() }),
    {
        RegularPolyBuilder::new(8)
    }

    pub fn decagon() -> (r: RegularPolyBuilder)
        ensures
            r == (RegularPolyBuilder { sides: 10, ..Self::spec_default() }),
    {
        RegularPolyBuilder::new(10)
    }

    /// A polygon needs at least three sides.
    pub fn with_sides(self, sides: u32) -> (r: RegularPolyBuilder)
        requires
            sides >= 3,
        ensures
            r == (RegularPolyBuilder { sides, ..self }),
    {
        RegularPolyBuilder { sides, ..self }
    }

    pub fn with_circle(self, circle: Circle) -> (r: RegularPolyBuilder)
        ensures
            r == (RegularPolyBuilder { circle, ..self }),
    {
        RegularPolyBuilder { circle, ..self }
    }

    pub fn with_center_and_radius(self, center: Point, radius: Scalar) -> (r: RegularPolyBuilder)
        ensures
            r == (RegularPolyBuilder { circle: Circle { center, radius }, ..self }),
    {
        self.with_circle(Circle::new(center, radius))
    }

    /// Places the first corner at `start_angle` radians, counter-clockwise from east.
    pub fn with_rotation(self, start_angle: Scalar) -> (r: RegularPolyBuilder)
        ensures
            r == (RegularPolyBuilder { start_angle, ..self }),
    {
        RegularPolyBuilder { start_angle, ..self }
    }

    pub fn with_stroke(self, stroke_width: Scalar) -> (r: RegularPolyBuilder)
        requires
            stroke_width.is_positive_finite(),
        ensures
            r == (RegularPolyBuilder { options: self.options.spec_with_stroke(stroke_width), ..self }),
    {
        RegularPolyBuilder { options: self.options.with_stroke(stroke_width), ..self }
    }

    pub fn with_stroke_opts(self, stroke_options: StrokeOptions) -> (r: RegularPolyBuilder)
        requires
            stroke_options.wf(),
        ensures
            r == (RegularPolyBuilder { options: self.options.spec_with_stroke_opts(stroke_options), ..self }),
    {
        RegularPolyBuilder { options: self.options.with_stroke_opts(stroke_options), ..self }
    }

    pub fn with_tolerance(self, tolerance: Scalar) -> (r: RegularPolyBuilder)
        requires
            tolerance.is_positive_finite(),
        ensures
            r == (RegularPolyBuilder { options: self.options.spec_with_tolerance(tolerance), ..self }),
    {
        RegularPolyBuilder { options: self.options.with_tolerance(tolerance), ..self }
    }

    pub fn with_fill(self) -> (r: RegularPolyBuilder)
        ensures
            r == (RegularPolyBuilder { options: self.options.spec_with_fill(), ..self }),
    {
        RegularPolyBuilder { options: self.options.with_fill(), ..self }
    }

    pub fn options(&self) -> (r: &Options)
        ensures
            *r == self.options,
    {
        &self.options
    }

    /// The square around the circle.
    pub fn bounding_rect(&self) -> (r: Bounds)
        ensures
            r == Bounds::CircleBox(self.circle),
    {
        Bounds::CircleBox(self.circle)
    }

    /// The corners: `sides` points on the circle, point `k` at step `k` of
    /// `sides`, so that neighbours lie `2π / sides` apart.
    pub fn points(&self) -> (r: Vec<crate::plan::RingPoint>)
        ensures
            r@ == polygon_points(self.sides as nat),
            r@.len() == self.sides,
            forall|k: int|
                0 <= k < r@.len() ==> {
                    &&& #[trigger] r@[k].ring == crate::plan::Ring::Outer
                    &&& r@[k].step == k
                    &&& r@[k].steps == self.sides
                },
    {
        polygon_corners(self.sides)
    }

    /// Builds the polygon into its plan: a filled or stroked closed ring.
    pub fn plan(self) -> (r: Result<Plan, Error>)
        requires
            self.options.wf(),
            self.sides >= 3,
        ensures
            plan_view(r) == self.spec_plan(),
            r is Ok,
    {
        let bounds = self.bounding_rect();
        let points = self.points();
        let outline = Outline::Ring {
            circle: self.circle,
            inner_radius_ratio: Scalar::one(),
            start_angle: self.start_angle,
            points,
        };
        assemble(outline, self.options, Some(bounds))
    }
}

/// Building the same polygon twice gives the same plan, bit for bit: the
/// builder alone decides it.
pub proof fn lemma_plan_repeatable(a: RegularPolyBuilder, b: RegularPolyBuilder, ra: Result<Plan, Error>, rb: Result<Plan, Error>)
    requires
        a == b,
        plan_view(ra) == a.spec_plan(),
        plan_view(rb) == b.spec_plan(),
    ensures
        plan_view(ra) == plan_view(rb),
{
}

} // verus!
