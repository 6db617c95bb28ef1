//! Rescaling a velocity to a target speed while keeping its direction.

use vstd::prelude::*;
use crate::config::MAX_SPEED;
use crate::math::{
    div_tz, is_sqrt_floor, isqrt, lemma_div_tz_bound, lemma_sqrt_floor_exists, mul_div_tz,
    sqrt_floor,
};
use crate::vec2::{norm_sq, norm_sq_exec, Vec2};

verus! {

/// `v` rescaled to magnitude `t`, rounding each component toward zero. The
/// zero vector has no direction and is returned unchanged.
pub open spec fn renormalized(v: Vec2, t: int) -> Vec2 {
    if norm_sq(v) == 0 {
        v
    } else {
        let l = sqrt_floor(norm_sq(v));
        Vec2 { x: div_tz(v.x * t, l) as i64, y: div_tz(v.y * t, l) as i64 }
    }
}

/// No component of a vector exceeds the vector's magnitude rounded down:
/// from `x*x <= n < (l+1)*(l+1)` follows `|x| <= l`.
proof fn lemma_component_le_root(x: int, y: int, n: int, l: int)
    requires
        n == x * x + y * y,
        is_sqrt_floor(n, l),
    ensures
        -l <= x <= l,
        -l <= y <= l,
        l * l <= n,
        l >= 0,
{
    assert(-l <= x <= l && -l <= y <= l) by (nonlinear_arith)
        requires
            n == x * x + y * y,
            0 <= l,
            n < (l + 1) * (l + 1),
    ;
}

/// Each component of a renormalized vector is the truncated quotient
/// `v_component * t / |v|`, and is bounded by the target `t`.
pub proof fn lemma_renormalized_components(v: Vec2, t: int)
    requires
        norm_sq(v) > 0,
        0 <= t <= MAX_SPEED,
    ensures
        ({
            let l = sqrt_floor(norm_sq(v));
            let r = renormalized(v, t);
            &&& is_sqrt_floor(norm_sq(v), l)
            &&& 1 <= l
            &&& r.x as int == div_tz(v.x * t, l)
            &&& r.y as int == div_tz(v.y * t, l)
            &&& -t <= r.x as int <= t
            &&& -t <= r.y as int <= t
        }),
{
    let n = norm_sq(v);
    lemma_sqrt_floor_exists(n);
    let l = sqrt_floor(n);
    assert(l >= 1) by (nonlinear_arith)
        requires
            n >= 1,
            l >= 0,
            n < (l + 1) * (l + 1),
    ;
    lemma_component_le_root(v.x as int, v.y as int, n, l);
    assert(-(l * t) <= (v.x as int) * t <= l * t && -(l * t) <= (v.y as int) * t <= l * t)
        by (nonlinear_arith)
        requires
            -l <= v.x as int <= l,
            -l <= v.y as int <= l,
            t >= 0,
    ;
    lemma_div_tz_bound((v.x as int) * t, l, t);
    lemma_div_tz_bound((v.y as int) * t, l, t);
}

/// Renormalization hits the target speed up to rounding: the squared norm of
/// the result lies in `[t*t - 4*t - 1, 2*t*t]`.
pub proof fn lemma_renormalized_norm(v: Vec2, t: int)
    requires
        norm_sq(v) > 0,
        0 <= t <= MAX_SPEED,
    ensures
        t * t - 4 * t - 1 <= norm_sq(renormalized(v, t)),
        norm_sq(renormalized(v, t)) <= 2 * t * t,
{
    let n = norm_sq(v);
    lemma_sqrt_floor_exists(n);
    let l = sqrt_floor(n);
    lemma_renormalized_components(v, t);
    let r = renormalized(v, t);
    let rx = r.x as int;
    let ry = r.y as int;
    // Upper bound: each component is within [-t, t].
    assert(norm_sq(r) <= 2 * t * t) by (nonlinear_arith)
        requires
            norm_sq(r) == rx * rx + ry * ry,
            -t <= rx <= t,
            -t <= ry <= t,
    ;
    // Lower bound. Work with absolute values of the components and quotients.
    let ux = if v.x >= 0 { v.x as int } else { -(v.x as int) };
    let uy = if v.y >= 0 { v.y as int } else { -(v.y as int) };
    let qx = if rx >= 0 { rx } else { -rx };
    let qy = if ry >= 0 { ry } else { -ry };
    // The quotient of the absolute values is the absolute value of the quotient.
    assert(qx == div_tz(ux * t, l) && qy == div_tz(uy * t, l)) by {
        assert(ux * t == (if (v.x as int) * t >= 0 { (v.x as int) * t } else { -((v.x as int) * t) })
            && uy * t == (if (v.y as int) * t >= 0 { (v.y as int) * t } else { -((v.y as int) * t) }))
            by (nonlinear_arith)
            requires
                t >= 0,
                ux == (if v.x >= 0 { v.x as int } else { -(v.x as int) }),
                uy == (if v.y >= 0 { v.y as int } else { -(v.y as int) }),
        ;
    }
    crate::math::lemma_div_tz_bracket(ux * t, l);
    crate::math::lemma_div_tz_bracket(uy * t, l);
    // Square the strict upper brackets.
    assert((ux * t) * (ux * t) < (l * l) * ((qx + 1) * (qx + 1))) by (nonlinear_arith)
        requires
            0 <= ux * t,
            ux * t < l * (qx + 1),
            l >= 1,
            qx >= 0,
    ;
    assert((uy * t) * (uy * t) < (l * l) * ((qy + 1) * (qy + 1))) by (nonlinear_arith)
        requires
            0 <= uy * t,
            uy * t < l * (qy + 1),
            l >= 1,
            qy >= 0,
    ;
    // (t * l)^2 <= t^2 * n == (ux t)^2 + (uy t)^2.
    assert(ux * ux == (v.x as int) * (v.x as int) && uy * uy == (v.y as int) * (v.y as int))
        by (nonlinear_arith)
        requires
            ux == (if v.x >= 0 { v.x as int } else { -(v.x as int) }),
            uy == (if v.y >= 0 { v.y as int } else { -(v.y as int) }),
    ;
    assert((t * t) * (l * l) <= (ux * t) * (ux * t) + (uy * t) * (uy * t)) by (nonlinear_arith)
        requires
            l * l <= n,
            n == ux * ux + uy * uy,
            t >= 0,
    ;
    // Cancel l * l and expand the squares.
    assert(t * t < (qx + 1) * (qx + 1) + (qy + 1) * (qy + 1)) by (nonlinear_arith)
        requires
            (t * t) * (l * l) < (l * l) * ((qx + 1) * (qx + 1)) + (l * l) * ((qy + 1) * (qy + 1)),
            l >= 1,
    ;
    assert(t * t < qx * qx + qy * qy + 2 * qx + 2 * qy + 2) by (nonlinear_arith)
        requires
            t * t < (qx + 1) * (qx + 1) + (qy + 1) * (qy + 1),
    ;
    assert(qx * qx + qy * qy == norm_sq(r)) by (nonlinear_arith)
        requires
            norm_sq(r) == rx * rx + ry * ry,
            qx == (if rx >= 0 { rx } else { -rx }),
            qy == (if ry >= 0 { ry } else { -ry }),
    ;
}

/// Computes `renormalized(v, t)` for bounded inputs.
pub fn renormalize(v: Vec2, t: i64) -> (r: Vec2)
    requires
        -210_000_000 <= v.x <= 210_000_000,
        -210_000_000 <= v.y <= 210_000_000,
        0 <= t <= MAX_SPEED,
    ensures
        r == renormalized(v, t as int),
        norm_sq(v) == 0 ==> r == v,
        norm_sq(v) > 0 ==> -t <= r.x <= t && -t <= r.y <= t,
{
    let n = norm_sq_exec(v);
    if n == 0 {
        return v;
    }
    let l = isqrt(n);
    proof {
        lemma_renormalized_components(v, t as int);
        crate::math::lemma_sqrt_floor_is(n as int, l as int);
    }
    let rx = mul_div_tz(v.x, t, l);
    let ry = mul_div_tz(v.y, t, l);
    Vec2 { x: rx, y: ry }
}

} // verus!
