//! Two-dimensional fixed-point vectors and their squared metrics.

use vstd::prelude::*;

verus! {

/// A two-dimensional vector (or point) with integer components.
#[derive(Clone, Copy, PartialEq, Eq, Structural, Debug)]
pub struct Vec2 {
    pub x: i64,
    pub y: i64,
}

/// Squared Euclidean norm of a vector.
pub open spec fn norm_sq(v: Vec2) -> int {
    (v.x as int) * (v.x as int) + (v.y as int) * (v.y as int)
}

/// Squared Euclidean distance between two points.
pub open spec fn dist_sq(a: Vec2, b: Vec2) -> int {
    (a.x - b.x) * (a.x - b.x) + (a.y - b.y) * (a.y - b.y)
}

/// A squared norm is never negative, and is zero exactly on the zero vector.
pub proof fn lemma_norm_sq_basics(v: Vec2)
    ensures
        norm_sq(v) >= 0,
        norm_sq(v) == 0 <==> v.x == 0 && v.y == 0,
{
    assert(norm_sq(v) >= 0 && (norm_sq(v) == 0 <==> v.x == 0 && v.y == 0)) by (nonlinear_arith);
}

/// Computes the squared norm of a vector with bounded components.
pub fn norm_sq_exec(v: Vec2) -> (n: i64)
    requires
        -210_000_000 <= v.x <= 210_000_000,
        -210_000_000 <= v.y <= 210_000_000,
    ensures
        n as int == norm_sq(v),
        0 <= n <= 88_200_000_000_000_000,
{
    proof {
        assert(0 <= (v.x as int) * (v.x as int) <= 44_100_000_000_000_000
            && 0 <= (v.y as int) * (v.y as int) <= 44_100_000_000_000_000) by (nonlinear_arith)
            requires
                -210_000_000 <= v.x <= 210_000_000,
                -210_000_000 <= v.y <= 210_000_000,
        ;
    }
    v.x * v.x + v.y * v.y
}

/// Computes the squared distance between two points with bounded components.
pub fn dist_sq_exec(a: Vec2, b: Vec2) -> (d: i64)
    requires
        -100_000 <= a.x <= 100_000,
        -100_000 <= a.y <= 100_000,
        -100_000 <= b.x <= 100_000,
        -100_000 <= b.y <= 100_000,
    ensures
        d as int == dist_sq(a, b),
        0 <= d <= 80_000_000_000,
{
    let dx: i64 = a.x - b.x;
    let dy: i64 = a.y - b.y;
    proof {
        assert(0 <= (dx as int) * (dx as int) <= 40_000_000_000
            && 0 <= (dy as int) * (dy as int) <= 40_000_000_000) by (nonlinear_arith)
            requires
                -200_000 <= dx <= 200_000,
                -200_000 <= dy <= 200_000,
        ;
    }
    dx * dx + dy * dy
}

} // verus!
