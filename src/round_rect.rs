//! Rectangles with a radius of its own at each corner.
use vstd::prelude::*;

use crate::geometry::{Point, Rect};
use crate::options::{Options, StrokeOptions};
use crate::plan::{assemble, plan_view, spec_assemble, BorderRadii, Bounds, Error, Outline, OutlineView, Plan};
use crate::scalar::Scalar;

verus! {

/// The default corner radius, `30.0`.
pub const DEFAULT_CORNER_RADIUS_BITS: u32 = 0x41F0_0000;

/// The side of the default square, `90.0`.
pub const DEFAULT_SIDE_BITS: u32 = 0x42B4_0000;

/// A rectangle whose corners are quarter circles of the given radii; a radius
/// of `0.0` leaves that corner sharp.
#[derive(Clone, Copy, Debug)]
pub struct RoundRectBuilder {
    pub rect: Rect,
    pub top_left_radius: Scalar,
    pub top_right_radius: Scalar,
    pub bottom_right_radius: Scalar,
    pub bottom_left_radius: Scalar,
    pub options: Options,
}

impl RoundRectBuilder {
    pub open spec fn spec_default() -> RoundRectBuilder {
        RoundRectBuilder {
            rect: Rect {
                top: Scalar { bits: 0 },
                right: Scalar { bits: DEFAULT_SIDE_BITS },
                bottom: Scalar { bits: DEFAULT_SIDE_BITS },
                left: Scalar { bits: 0 },
            },
            top_left_radius: Scalar { bits: DEFAULT_CORNER_RADIUS_BITS },
            top_right_radius: Scalar { bits: DEFAULT_CORNER_RADIUS_BITS },
            bottom_right_radius: Scalar { bits: DEFAULT_CORNER_RADIUS_BITS },
            bottom_left_radius: Scalar { bits: DEFAULT_CORNER_RADIUS_BITS },
            options: Options::spec_default(),
        }
    }

    /// The corner radii, as the tessellator takes them.
    pub open spec fn spec_radii(self) -> BorderRadii {
        BorderRadii {
            top_left: self.top_left_radius,
            top_right: self.top_right_radius,
            bottom_right: self.bottom_right_radius,
            bottom_left: self.bottom_left_radius,
        }
    }

    /// The rounded rectangle's plan, before any tessellation.
    pub open spec fn spec_plan(self) -> Result<crate::plan::PlanView, Error> {
        spec_assemble(
            OutlineView::RoundedRect { rect: self.rect, radii: self.spec_radii() },
            self.options,
            Some(Bounds::Rect(self.rect)),
        )
    }
}

impl Default for RoundRectBuilder {
    /// A filled square of side `90.0` from the origin, corners of radius `30.0`.
    fn default() -> (r: RoundRectBuilder)
        ensures
            r == RoundRectBuilder::spec_default(),
    {
        let radius = Scalar::from_bits(DEFAULT_CORNER_RADIUS_BITS);
        let side = Scalar::from_bits(DEFAULT_SIDE_BITS);
        RoundRectBuilder {
            rect: Rect::from_top_right_bottom_left(Scalar::zero(), side, side, Scalar::zero()),
            top_left_radius: radius,
            top_right_radius: radius,
            bottom_right_radius: radius,
            bottom_left_radius: radius,
            options: Options::default(),
        }
    }
}

impl RoundRectBuilder {
    pub fn new(rect: Rect) -> (r: RoundRectBuilder)
        ensures
            r == (RoundRectBuilder { rect, ..Self::spec_default() }),
    {
        RoundRectBuilder::default().with_rect(rect)
    }

    pub fn with_rect(self, rect: Rect) -> (r: RoundRectBuilder)
        ensures
            r == (RoundRectBuilder { rect, ..self }),
    {
        RoundRectBuilder { rect, ..self }
    }

    /// Sets the four radii clockwise from the top left corner.
    pub fn with_clockwise_radii(self, top_left: Scalar, top_right: Scalar, bottom_right: Scalar, bottom_left: Scalar) -> (r:
        RoundRectBuilder)
        ensures
            r == (RoundRectBuilder {
                top_left_radius: top_left,
                top_right_radius: top_right,
                bottom_right_radius: bottom_right,
                bottom_left_radius: bottom_left,
                ..self
            }),
    {
        self.with_top_left_radius(top_left).with_top_right_radius(top_right).with_bottom_right_radius(
            bottom_right,
        ).with_bottom_left_radius(bottom_left)
    }

    pub fn with_uniform_radius(self, radius: Scalar) -> (r: RoundRectBuilder)
        ensures
            r == (RoundRectBuilder {
                top_left_radius: radius,
                top_right_radius: radius,
                bottom_right_radius: radius,
                bottom_left_radius: radius,
                ..self
            }),
    {
        self.with_clockwise_radii(radius, radius, radius, radius)
    }

    pub fn with_top_radius(self, radius: Scalar) -> (r: RoundRectBuilder)
        ensures
            r == (RoundRectBuilder { top_left_radius: radius, top_right_radius: radius, ..self }),
    {
        self.with_top_left_radius(radius).with_top_right_radius(radius)
    }

    pub fn with_left_radius(self, radius: Scalar) -> (r: RoundRectBuilder)
        ensures
            r == (RoundRectBuilder { top_left_radius: radius, bottom_left_radius: radius, ..self }),
    {
        self.with_top_left_radius(radius).with_bottom_left_radius(radius)
    }

    pub fn with_right_radius(self, radius: Scalar) -> (r: RoundRectBuilder)
        ensures
            r == (RoundRectBuilder { top_right_radius: radius, bottom_right_radius: radius, ..self }),
    {
        self.with_top_right_radius(radius).with_bottom_right_radius(radius)
    }

    pub fn with_bottom_radius(self, radius: Scalar) -> (r: RoundRectBuilder)
        ensures
            r == (RoundRectBuilder { bottom_right_radius: radius, bottom_left_radius: radius, ..self }),
    {
        self.with_bottom_right_radius(radius).with_bottom_left_radius(radius)
    }

    pub fn with_top_left_radius(self, radius: Scalar) -> (r: RoundRectBuilder)
        ensures
            r == (RoundRectBuilder { top_left_radius: radius, ..self }),
    {
        RoundRectBuilder { top_left_radius: radius, ..self }
    }

    pub fn with_top_right_radius(self, radius: Scalar) -> (r: RoundRectBuilder)
        ensures
            r == (RoundRectBuilder { top_right_radius: radius, ..self }),
    {
        RoundRectBuilder { top_right_radius: radius, ..self }
    }

    pub fn with_bottom_right_radius(self, radius: Scalar) -> (r: RoundRectBuilder)
        ensures
            r == (RoundRectBuilder { bottom_right_radius: radius, ..self }),
    {
        RoundRectBuilder { bottom_right_radius: radius, ..self }
    }

    pub fn with_bottom_left_radius(self, radius: Scalar) -> (r: RoundRectBuilder)
        ensures
            r == (RoundRectBuilder { bottom_left_radius: radius, ..self }),
    {
        RoundRectBuilder { bottom_left_radius: radius, ..self }
    }

    pub fn with_stroke(self, stroke_width: Scalar) -> (r: RoundRectBuilder)
        requires
            stroke_width.is_positive_finite(),
        ensures
            r == (RoundRectBuilder { options: self.options.spec_with_stroke(stroke_width), ..self }),
    {
        RoundRectBuilder { options: self.options.with_stroke(stroke_width), ..self }
    }

    pub fn with_stroke_opts(self, stroke_options: StrokeOptions) -> (r: RoundRectBuilder)
        requires
            stroke_options.wf(),
        ensures
            r == (RoundRectBuilder { options: self.options.spec_with_stroke_opts(stroke_options), ..self }),
    {
        RoundRectBuilder { options: self.options.with_stroke_opts(stroke_options), ..self }
    }

    pub fn with_tolerance(self, tolerance: Scalar) -> (r: RoundRectBuilder)
        requires
            tolerance.is_positive_finite(),
        ensures
            r == (RoundRectBuilder { options: self.options.spec_with_tolerance(tolerance), ..self }),
    {
        RoundRectBuilder { options: self.options.with_tolerance(tolerance), ..self }
    }

    pub fn with_fill(self) -> (r: RoundRectBuilder)
        ensures
            r == (RoundRectBuilder { options: self.options.spec_with_fill(), ..self }),
    {
        RoundRectBuilder { options: self.options.with_fill(), ..self }
    }

    pub fn options(&self) -> (r: &Options)
        ensures
            *r == self.options,
    {
        &self.options
    }

    pub fn bounding_rect(&self) -> (r: Rect)
        ensures
            r == self.rect,
    {
        self.rect
    }

    pub fn radii(&self) -> (r: BorderRadii)
        ensures
            r == self.spec_radii(),
    {
        BorderRadii {
            top_left: self.top_left_radius,
            top_right: self.top_right_radius,
            bottom_right: self.bottom_right_radius,
            bottom_left: self.bottom_left_radius,
        }
    }

    /// Builds the rounded rectangle into its plan.
    pub fn plan(self) -> (r: Result<Plan, Error>)
        requires
            self.options.wf(),
        ensures
            plan_view(r) == self.spec_plan(),
            r is Ok,
    {
        let outline = Outline::RoundedRect { rect: self.rect, radii: self.radii() };
        assemble(outline, self.options, Some(Bounds::Rect(self.rect)))
    }
}

/// Building the same rounded rectangle twice gives the same plan, bit for bit: the
/// builder alone decides it.
pub proof fn lemma_plan_repeatable(a: RoundRectBuilder, b: RoundRectBuilder, ra: Result<Plan, Error>, rb: Result<Plan, Error>)
    requires
        a == b,
        plan_view(ra) == a.spec_plan(),
        plan_view(rb) == b.spec_plan(),
    ensures
        plan_view(ra) == plan_view(rb),
{
}

} // verus!
