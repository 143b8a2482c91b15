//! What a built shape hands the tessellator, and the choice between fill and stroke.
use vstd::prelude::*;

use crate::geometry::{Circle, LineSegment, Point, Rect};
use crate::options::{FillParams, Options, StrokeParams};
use crate::scalar::Scalar;

verus! {

/// Which of a ring shape's two circles a point lies on.
#[derive(Clone, Copy, Debug, PartialEq, Eq, Structural)]
pub enum Ring {
    Outer,
    /// The circle of radius `radius * inner_radius_ratio`.
    Inner,
}

/// A point of a ring shape: on circle `ring`, at angle
/// `a = start_angle + 2π * step / steps`, that is at
/// `center + radius * (cos a, -sin a)`: angles turn counter-clockwise as seen
/// with `y` growing downward, and `π / 2` points north.
#[derive(Clone, Copy, Debug, PartialEq, Eq, Structural)]
pub struct RingPoint {
    pub ring: Ring,
    pub step: u64,
    pub steps: u64,
}

/// Corner radii of a rounded rectangle.
#[derive(Clone, Copy, Debug, PartialEq, Eq, Structural)]
pub struct BorderRadii {
    pub top_left: Scalar,
    pub top_right: Scalar,
    pub bottom_right: Scalar,
    pub bottom_left: Scalar,
}

/// One command of a path.
#[derive(Clone, Copy, Debug, PartialEq, Eq, Structural)]
pub enum PathEvent {
    Begin { at: Point },
    QuadraticTo { ctrl: Point, to: Point },
    CubicTo { ctrl1: Point, ctrl2: Point, to: Point },
    End { close: bool },
}

/// The geometry handed to the tessellator.
#[derive(Clone, Debug)]
pub enum Outline {
    Circle(Circle),
    RoundedRect { rect: Rect, radii: BorderRadii },
    Segment(LineSegment),
    /// A polyline through `points`, closed back to the first one when `closed`.
    Polygon { points: Vec<Point>, closed: bool },
    /// A closed polygon through `points`, each placed on `circle` or on the
    /// inner circle scaled by `inner_radius_ratio`.
    Ring { circle: Circle, inner_radius_ratio: Scalar, start_angle: Scalar, points: Vec<RingPoint> },
    Path(Vec<PathEvent>),
}

/// [`Outline`] with its sequences as `Seq`.
pub enum OutlineView {
    Circle(Circle),
    RoundedRect { rect: Rect, radii: BorderRadii },
    Segment(LineSegment),
    Polygon { points: Seq<Point>, closed: bool },
    Ring { circle: Circle, inner_radius_ratio: Scalar, start_angle: Scalar, points: Seq<RingPoint> },
    Path(Seq<PathEvent>),
}

impl View for Outline {
    type V = OutlineView;

    open spec fn view(&self) -> OutlineView {
        match self {
            Outline::Circle(c) => OutlineView::Circle(*c),
            Outline::RoundedRect { rect, radii } => OutlineView::RoundedRect { rect: *rect, radii: *radii },
            Outline::Segment(l) => OutlineView::Segment(*l),
            Outline::Polygon { points, closed } => OutlineView::Polygon { points: points@, closed: *closed },
            Outline::Ring { circle, inner_radius_ratio, start_angle, points } => OutlineView::Ring {
                circle: *circle,
                inner_radius_ratio: *inner_radius_ratio,
                start_angle: *start_angle,
                points: points@,
            },
            Outline::Path(events) => OutlineView::Path(events@),
        }
    }
}

/// The rectangle that texture coordinates of a fill are taken against.
#[derive(Clone, Copy, Debug, PartialEq, Eq, Structural)]
pub enum Bounds {
    Rect(Rect),
    /// The square that circumscribes the circle.
    CircleBox(Circle),
}

/// Which tessellation runs, with its settings.
#[derive(Clone, Copy, Debug, PartialEq, Eq, Structural)]
pub enum Tessellation {
    Fill { params: FillParams, bounds: Bounds },
    Stroke { params: StrokeParams, texture_aspect_ratio: Scalar },
}

/// A shape ready for exactly one tessellation pass.
#[derive(Clone, Debug)]
pub struct Plan {
    pub outline: Outline,
    pub tessellation: Tessellation,
}

/// [`Plan`] with its outline as an [`OutlineView`].
pub struct PlanView {
    pub outline: OutlineView,
    pub tessellation: Tessellation,
}

impl View for Plan {
    type V = PlanView;

    open spec fn view(&self) -> PlanView {
        PlanView { outline: self.outline@, tessellation: self.tessellation }
    }
}

/// A build result with the plan seen through its view.
pub open spec fn plan_view(r: Result<Plan, Error>) -> Result<PlanView, Error> {
    match r {
        Ok(p) => Ok(p@),
        Err(e) => Err(e),
    }
}

/// Why the tessellator failed.
#[derive(Clone, Copy, Debug, PartialEq, Eq, Structural)]
pub enum TessellationFailure {
    UnsupportedParameter,
    InvalidVertex,
    TooManyVertices,
    Internal,
}

#[derive(Clone, Copy, Debug, PartialEq, Eq, Structural)]
pub enum Error {
    /// A fill was asked of a shape that has no interior to fill.
    FillNotSupported,
    Tessellation(TessellationFailure),
}

/// The tessellation that `options` asks for; `bounds` is `None` for a shape
/// that cannot be filled.
pub open spec fn spec_tessellation(options: Options, bounds: Option<Bounds>) -> Result<Tessellation, Error> {
    match options.stroke_options {
        None => match bounds {
            None => Err(Error::FillNotSupported),
            Some(b) => Ok(Tessellation::Fill { params: FillParams { tolerance: options.tolerance }, bounds: b }),
        },
        Some(s) => Ok(
            Tessellation::Stroke {
                params: StrokeParams { tolerance: options.tolerance, line_width: s.stroke_width },
                texture_aspect_ratio: s.texture_aspect_ratio,
            },
        ),
    }
}

/// The plan for an outline with view `outline` under `options`.
pub open spec fn spec_assemble(outline: OutlineView, options: Options, bounds: Option<Bounds>) -> Result<PlanView, Error> {
    match spec_tessellation(options, bounds) {
        Ok(t) => Ok(PlanView { outline, tessellation: t }),
        Err(e) => Err(e),
    }
}

/// Chooses the one tessellation that `options` asks for. Fill of a shape
/// without bounds is refused here, before any tessellation starts.
pub fn assemble(outline: Outline, options: Options, bounds: Option<Bounds>) -> (r: Result<Plan, Error>)
    requires
        options.wf(),
    ensures
        plan_view(r) == spec_assemble(outline@, options, bounds),
{
    match options.stroke_options {
        None => match bounds {
            None => Err(Error::FillNotSupported),
            Some(b) => {
                let params = options.fill_options();
                Ok(Plan { outline, tessellation: Tessellation::Fill { params, bounds: b } })
            },
        },
        Some(s) => {
            let params = options.stroke_options();
            Ok(
                Plan {
                    outline,
                    tessellation: Tessellation::Stroke { params, texture_aspect_ratio: s.texture_aspect_ratio },
                },
            )
        },
    }
}

} // verus!
