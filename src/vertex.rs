//! Tessellated output: vertices with texture coordinates, and index buffers.
use vstd::prelude::*;

use crate::geometry::Point;
use crate::scalar::{Scalar, ONE_BITS};

verus! {

/// A vertex of a tessellated shape.
#[derive(Clone, Copy, Debug, PartialEq, Eq, Structural)]
pub struct Vertex {
    pub pos: Point,
    pub tex_coord: Point,
}

/// Tessellated polygon vertices, and the indices of its triangles.
#[derive(Clone, Debug)]
pub struct Poly {
    pub vertices: Vec<Vertex>,
    pub indices: Vec<u32>,
}

/// The side of a stroke's centre line that a stroke vertex lies on.
#[derive(Clone, Copy, Debug, PartialEq, Eq, Structural)]
pub enum Side {
    Left,
    Right,
}

/// The `x` texture coordinate across a stroke: `1.0` on its left edge, `0.0`
/// on its right.
pub open spec fn spec_side_tex_x(side: Side) -> Scalar {
    match side {
        Side::Left => Scalar { bits: ONE_BITS },
        Side::Right => Scalar { bits: 0 },
    }
}

/// The `x` texture coordinate across a stroke for a vertex on `side`.
pub fn side_tex_x(side: Side) -> (r: Scalar)
    ensures
        r == spec_side_tex_x(side),
        r.bits == 0 || r.bits == ONE_BITS,
{
    match side {
        Side::Left => Scalar::one(),
        Side::Right => Scalar::zero(),
    }
}

/// A stroke vertex at `pos`: across the stroke by its side, along it by
/// `along`, the advancement scaled by the texture aspect ratio over the width.
pub fn stroke_vertex(pos: Point, side: Side, along: Scalar) -> (r: Vertex)
    ensures
        r.pos == pos,
        r.tex_coord == (Point { x: spec_side_tex_x(side), y: along }),
{
    Vertex { pos, tex_coord: Point { x: side_tex_x(side), y: along } }
}

} // verus!
