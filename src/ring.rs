//! Placement of the corners of regular polygons and stars.
//!
//! A corner is a [`RingPoint`]: a step of a full turn divided into equal steps.
//! A polygon with `n` sides takes steps `0..n` of `n` on its circle. A star
//! with `n` tips divides the turn into `2n` steps: even steps are its tips, on
//! the outer circle, odd steps its inner corners, half a tip apart (`π / n`).
use vstd::prelude::*;

use itertools::Itertools;

use crate::plan::{Ring, RingPoint};

verus! {

/// `count` points on `ring`, at steps `offset, offset + stride, ...` of `steps`.
pub open spec fn spaced_points(ring: Ring, count: nat, stride: int, offset: int, steps: int) -> Seq<RingPoint> {
    Seq::new(count, |k: int| RingPoint { ring, step: (offset + stride * k) as u64, steps: steps as u64 })
}

/// The corners of a polygon with `sides` sides: point `k` at step `k` of `sides`.
pub open spec fn polygon_points(sides: nat) -> Seq<RingPoint> {
    spaced_points(Ring::Outer, sides, 1, 0, sides as int)
}

/// The corners of a star with `tips` tips: point `j` at step `j` of `2 * tips`,
/// a tip on the outer circle where `j` is even, an inner corner where it is odd.
pub open spec fn star_points(tips: nat) -> Seq<RingPoint> {
    Seq::new(
        2 * tips,
        |j: int|
            RingPoint {
                ring: if j % 2 == 0 { Ring::Outer } else { Ring::Inner },
                step: j as u64,
                steps: (2 * tips) as u64,
            },
    )
}

/// Items of `a` and `b` alternately, starting with `a`; once one runs out,
/// the rest of the other.
pub open spec fn interleaved<A>(a: Seq<A>, b: Seq<A>) -> Seq<A>
    decreases a.len() + b.len(),
{
    if a.len() == 0 {
        b
    } else {
        seq![a[0]] + interleaved(b, a.drop_first())
    }
}

/// Two sequences of equal length, or the first one longer by one, interleave
/// into `a[0], b[0], a[1], b[1], ...`.
pub proof fn lemma_interleaved_alternates<A>(a: Seq<A>, b: Seq<A>)
    requires
        a.len() == b.len() || a.len() == b.len() + 1,
    ensures
        interleaved(a, b).len() == a.len() + b.len(),
        forall|k: int| 0 <= k < a.len() ==> #[trigger] interleaved(a, b)[2 * k] == a[k],
        forall|k: int| 0 <= k < b.len() ==> #[trigger] interleaved(a, b)[2 * k + 1] == b[k],
    decreases a.len() + b.len(),
{
    if a.len() > 0 {
        let rest = a.drop_first();
        lemma_interleaved_alternates(b, rest);
        let r = interleaved(a, b);
        let t = interleaved(b, rest);
        assert(r == seq![a[0]] + t);
        assert forall|k: int| 0 <= k < a.len() implies #[trigger] r[2 * k] == a[k] by {
            if k > 0 {
                assert(r[2 * k] == t[2 * (k - 1) + 1]);
            }
        }
        assert forall|k: int| 0 <= k < b.len() implies #[trigger] r[2 * k + 1] == b[k] by {
            assert(r[2 * k + 1] == t[2 * k]);
        }
    }
}

/// A polygon's corners all lie on its circle, one step of `2π / sides` apart,
/// the last one a step before the first.
pub proof fn lemma_polygon_evenly_spaced(sides: nat)
    requires
        3 <= sides <= u32::MAX,
    ensures
        polygon_points(sides).len() == sides,
        forall|k: int| 0 <= k < sides ==> (#[trigger] polygon_points(sides)[k]).ring == Ring::Outer,
        forall|k: int| 0 <= k < sides ==> (#[trigger] polygon_points(sides)[k]).steps == sides,
        forall|k: int|
            0 <= k < sides - 1 ==> (#[trigger] polygon_points(sides)[k + 1]).step == polygon_points(sides)[k].step
                + 1,
        polygon_points(sides)[0].step + sides == polygon_points(sides)[sides - 1].step + 1,
{
}

/// A star's corners alternate tip and inner corner, tips on the outer circle
/// and inner corners on the inner one, each a step of `π / tips` after the
/// one before it; so each inner corner lies `π / tips` from its neighbouring tips.
pub proof fn lemma_star_alternates(tips: nat)
    requires
        3 <= tips <= u32::MAX,
    ensures
        star_points(tips).len() == 2 * tips,
        forall|j: int| 0 <= j < 2 * tips ==> (#[trigger] star_points(tips)[j]).steps == 2 * tips,
        forall|k: int| 0 <= k < tips ==> (#[trigger] star_points(tips)[2 * k]).ring == Ring::Outer,
        forall|k: int| 0 <= k < tips ==> (#[trigger] star_points(tips)[2 * k + 1]).ring == Ring::Inner,
        forall|j: int|
            0 <= j < 2 * tips - 1 ==> (#[trigger] star_points(tips)[j + 1]).step == star_points(tips)[j].step + 1,
        star_points(tips)[0].step + 2 * tips == star_points(tips)[2 * tips - 1].step + 1,
{
    assert forall|k: int| 0 <= k < tips implies (#[trigger] star_points(tips)[2 * k + 1]).ring == Ring::Inner by {
        assert((2 * k + 1) % 2 == 1);
    }
    assert forall|k: int| 0 <= k < tips implies (#[trigger] star_points(tips)[2 * k]).ring == Ring::Outer by {
        assert((2 * k) % 2 == 0);
    }
}

/// Relies on `Itertools::interleave`: the items of both, alternately, first
/// from `a`; once one runs out, the rest of the other.
#[verifier::external_body]
fn interleave(a: Vec<RingPoint>, b: Vec<RingPoint>) -> (r: Vec<RingPoint>)
    ensures
        r@ == interleaved(a@, b@),
{
    a.into_iter().interleave(b).collect()
}

/// `count` points on `ring`, at steps `offset, offset + stride, ...` of `steps`.
fn spaced(ring: Ring, count: u32, stride: u64, offset: u64, steps: u64) -> (r: Vec<RingPoint>)
    requires
        stride <= 2,
        offset <= 1,
    ensures
        r@ == spaced_points(ring, count as nat, stride as int, offset as int, steps as int),
{
    let mut r: Vec<RingPoint> = Vec::new();
    let mut k: u32 = 0;
    while k < count
        invariant
            k <= count,
            stride <= 2,
            offset <= 1,
            r@ == spaced_points(ring, k as nat, stride as int, offset as int, steps as int),
        decreases count - k,
    {
        assert(stride * (k as u64) <= 2 * 0xFFFF_FFFFu64) by (nonlinear_arith)
            requires
                stride <= 2,
                k < count,
        ;
        r.push(RingPoint { ring, step: offset + stride * (k as u64), steps });
        k = k + 1;
        assert(r@ =~= spaced_points(ring, k as nat, stride as int, offset as int, steps as int));
    }
    r
}

/// The corners of a regular polygon with `sides` sides.
pub fn polygon_corners(sides: u32) -> (r: Vec<RingPoint>)
    ensures
        r@ == polygon_points(sides as nat),
{
    spaced(Ring::Outer, sides, 1, 0, sides as u64)
}

/// The corners of a star with `tips` tips: its tips and inner corners alternately.
pub fn star_corners(tips: u32) -> (r: Vec<RingPoint>)
    ensures
        r@ == star_points(tips as nat),
{
    let steps: u64 = 2 * (tips as u64);
    let outer = spaced(Ring::Outer, tips, 2, 0, steps);
    let inner = spaced(Ring::Inner, tips, 2, 1, steps);
    let r = interleave(outer, inner);
    proof {
        lemma_interleaved_alternates(outer@, inner@);
        assert forall|j: int| 0 <= j < r@.len() implies #[trigger] r@[j] == star_points(tips as nat)[j] by {
            let k = j / 2;
            if j % 2 == 0 {
                assert(r@[2 * k] == outer@[k]);
            } else {
                assert(r@[2 * k + 1] == inner@[k]);
            }
        }
        assert(r@ =~= star_points(tips as nat));
    }
    r
}

} // verus!
