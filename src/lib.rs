//! Declarative 2D shapes turned into tessellation plans.
//!
//! Every shape builder here is a plain value object. Building one yields a
//! [`Plan`]: the outline to hand to a tessellator, and whether it is filled or
//! stroked with which settings. Numbers are single-precision floats held by
//! their IEEE-754 bit pattern ([`Scalar`]); the library never does float
//! arithmetic itself, it places, orders and routes values.
use vstd::prelude::*;

pub mod bezier;
pub mod circle;
pub mod free_poly;
pub mod geometry;
pub mod line_segment;
pub mod options;
pub mod plan;
pub mod regular_poly;
pub mod ring;
pub mod round_rect;
pub mod scalar;
pub mod star;
pub mod vertex;

pub use bezier::{BezierBuilder, BezierSegment, ControlPoint};
pub use circle::CircleBuilder;
pub use free_poly::FreePolyBuilder;
pub use geometry::{Circle, LineSegment, Point, Rect};
pub use line_segment::LineSegmentBuilder;
pub use options::{FillParams, Options, StrokeOptions, StrokeParams};
pub use plan::{
    assemble, plan_view, spec_assemble, spec_tessellation, BorderRadii, Bounds, Error, Outline,
    OutlineView, PathEvent, Plan, PlanView, Ring, RingPoint, Tessellation, TessellationFailure,
};
pub use regular_poly::RegularPolyBuilder;
pub use round_rect::RoundRectBuilder;
pub use scalar::Scalar;
pub use star::StarBuilder;
pub use vertex::{side_tex_x, stroke_vertex, Poly, Side, Vertex};

verus! {

/// The radius of a default polygon or star, `50.0`.
pub const DEFAULT_RADIUS_BITS: u32 = 0x4248_0000;

/// `π / 2`: the angle of north, counter-clockwise from east.
pub const NORTH_ANGLE_BITS: u32 = 0x3FC9_0FDB;

/// Where the first corner of a polygon or the first tip of a star goes by
/// default: north.
pub fn default_start_angle() -> (r: Scalar)
    ensures
        r.bits == NORTH_ANGLE_BITS,
{
    Scalar::from_bits(NORTH_ANGLE_BITS)
}

} // verus!
