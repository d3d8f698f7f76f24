//! Plane geometry for stroke capture: positions in integral scene units and
//! the tolerance-based proximity test that decides whether a drag gesture
//! closes the stroke.

use vstd::prelude::*;

verus! {

/// A position in the drawing plane, in integral scene length-units.
#[derive(Clone, Copy, PartialEq, Eq, Structural, Debug)]
pub struct Point {
    pub x: i32,
    pub y: i32,
}

/// Distance below which a drag gesture closes the stroke instead of
/// extending it, in scene length-units.
pub const FINISH_STROKE_TOLERANCE: i32 = 5;

/// Squared Euclidean distance between two points, in exact integer
/// arithmetic.
pub open spec fn dist_sq(a: Point, b: Point) -> int {
    (a.x - b.x) * (a.x - b.x) + (a.y - b.y) * (a.y - b.y)
}

/// Tolerant proximity: `a` lies within `tol` length-units of `b`. Comparing
/// squared distances against the squared tolerance avoids square roots.
pub open spec fn is_roughly_within(a: Point, b: Point, tol: int) -> bool {
    dist_sq(a, b) <= tol * tol
}

/// The square of a coordinate difference stays well inside the range of
/// `i128`.
proof fn lemma_square_bound(v: int)
    requires
        -0x1_0000_0000 <= v <= 0x1_0000_0000,
    ensures
        0 <= v * v <= 0x1_0000_0000_0000_0000,
{
    assert(0 <= v * v <= 0x1_0000_0000_0000_0000) by (nonlinear_arith)
        requires
            -0x1_0000_0000 <= v <= 0x1_0000_0000,
    ;
}

/// Decides `is_roughly_within` exactly: all intermediate products fit in
/// `i128`, so no rounding or overflow is involved.
pub fn roughly_within(a: Point, b: Point, tol: i32) -> (r: bool)
    ensures
        r == is_roughly_within(a, b, tol as int),
{
    let dx: i64 = (a.x as i64) - (b.x as i64);
    let dy: i64 = (a.y as i64) - (b.y as i64);
    proof {
        lemma_square_bound(dx as int);
        lemma_square_bound(dy as int);
        lemma_square_bound(tol as int);
    }
    let d2: i128 = (dx as i128) * (dx as i128) + (dy as i128) * (dy as i128);
    let t2: i128 = (tol as i128) * (tol as i128);
    d2 <= t2
}

} // verus!
