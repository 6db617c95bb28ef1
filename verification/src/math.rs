//! Integer helpers: round-toward-zero division and the integer square root.

use vstd::prelude::*;

verus! {

/// Largest argument `isqrt` accepts; comfortably above any squared norm the
/// simulation can produce, and small enough that the search bounds square
/// without overflowing an `i64`.
pub const ISQRT_MAX_ARG: i64 = 200_000_000_000_000_000;

/// Round-toward-zero division, matching Rust's `/` on `i64` when the divisor
/// is positive.
pub open spec fn div_tz(a: int, b: int) -> int {
    if a >= 0 {
        a / b
    } else {
        -((-a) / b)
    }
}

/// `r` is the integer square root of `n`, rounded down.
pub open spec fn is_sqrt_floor(n: int, r: int) -> bool {
    0 <= r && r * r <= n && n < (r + 1) * (r + 1)
}

/// The integer square root of `n`, rounded down.
pub open spec fn sqrt_floor(n: int) -> int {
    choose|r: int| is_sqrt_floor(n, r)
}

/// Every nonnegative integer has an integer square root.
pub proof fn lemma_sqrt_floor_exists(n: int)
    requires
        n >= 0,
    ensures
        is_sqrt_floor(n, sqrt_floor(n)),
    decreases n,
{
    if n == 0 {
        assert(is_sqrt_floor(0, 0));
    } else {
        lemma_sqrt_floor_exists(n - 1);
        let r = sqrt_floor(n - 1);
        if n < (r + 1) * (r + 1) {
            assert(is_sqrt_floor(n, r));
        } else {
            assert((r + 1) * (r + 1) < (r + 2) * (r + 2)) by (nonlinear_arith)
                requires
                    r >= 0,
            ;
            assert(is_sqrt_floor(n, r + 1));
        }
    }
}

/// The integer square root is unique: any witness is the square root.
pub proof fn lemma_sqrt_floor_is(n: int, r: int)
    requires
        is_sqrt_floor(n, r),
    ensures
        sqrt_floor(n) == r,
{
    let r2 = sqrt_floor(n);
    assert(is_sqrt_floor(n, r2));
    if r2 < r {
        assert((r2 + 1) * (r2 + 1) <= r * r) by (nonlinear_arith)
            requires
                0 <= r2,
                r2 < r,
        ;
        assert(false);
    }
    if r < r2 {
        assert((r + 1) * (r + 1) <= r2 * r2) by (nonlinear_arith)
            requires
                0 <= r,
                r < r2,
        ;
        assert(false);
    }
}

/// A quotient is bounded by any bound on the dividend divided out: if
/// `|a| <= b * k` then `|a / b| <= k` (rounding toward zero).
pub proof fn lemma_div_tz_bound(a: int, b: int, k: int)
    requires
        b >= 1,
        k >= 0,
        -(b * k) <= a <= b * k,
    ensures
        -k <= div_tz(a, b) <= k,
        a >= 0 ==> div_tz(a, b) >= 0,
        a <= 0 ==> div_tz(a, b) <= 0,
{
    if a >= 0 {
        let q = a / b;
        let m = a % b;
        vstd::arithmetic::div_mod::lemma_fundamental_div_mod(a, b);
        vstd::arithmetic::div_mod::lemma_mod_bound(a, b);
        assert(q <= k && q >= 0) by (nonlinear_arith)
            requires
                b >= 1,
                k >= 0,
                a == b * q + m,
                0 <= m < b,
                0 <= a <= b * k,
        ;
    } else {
        let q = (-a) / b;
        let m = (-a) % b;
        vstd::arithmetic::div_mod::lemma_fundamental_div_mod(-a, b);
        vstd::arithmetic::div_mod::lemma_mod_bound(-a, b);
        assert(q <= k && q >= 0) by (nonlinear_arith)
            requires
                b >= 1,
                k >= 0,
                -a == b * q + m,
                0 <= m < b,
                0 <= -a <= b * k,
        ;
    }
}

/// The two-sided truncation bracket for round-toward-zero division:
/// `|q| * b <= |a| < (|q| + 1) * b` where `q = div_tz(a, b)`.
pub proof fn lemma_div_tz_bracket(a: int, b: int)
    requires
        b >= 1,
        a >= 0,
    ensures
        b * div_tz(a, b) <= a < b * (div_tz(a, b) + 1),
        div_tz(a, b) >= 0,
{
    vstd::arithmetic::div_mod::lemma_fundamental_div_mod(a, b);
    vstd::arithmetic::div_mod::lemma_mod_bound(a, b);
    vstd::arithmetic::div_mod::lemma_div_pos_is_pos(a, b);
    assert(b * (a / b + 1) == b * (a / b) + b) by (nonlinear_arith);
}

/// Integer square root by binary search.
pub fn isqrt(n: i64) -> (r: i64)
    requires
        0 <= n <= ISQRT_MAX_ARG,
    ensures
        r as int == sqrt_floor(n as int),
        is_sqrt_floor(n as int, r as int),
{
    let mut lo: i64 = 0;
    let mut hi: i64 = 450_000_000;
    assert((hi as int) * (hi as int) > n as int);
    while lo + 1 < hi
        invariant
            0 <= lo < hi <= 450_000_000,
            (lo as int) * (lo as int) <= n as int,
            (n as int) < (hi as int) * (hi as int),
        decreases hi - lo,
    {
        let mid: i64 = lo + (hi - lo) / 2;
        assert(lo < mid < hi);
        assert((mid as int) * (mid as int) <= 450_000_000i64 * 450_000_000i64) by (nonlinear_arith)
            requires
                0 <= mid <= 450_000_000i64,
        ;
        if mid * mid <= n {
            lo = mid;
        } else {
            hi = mid;
        }
    }
    proof {
        assert(is_sqrt_floor(n as int, lo as int));
        lemma_sqrt_floor_is(n as int, lo as int);
    }
    lo
}

/// Computes `a / d` rounding toward zero (as Rust's `/` does), for a
/// positive divisor.
pub fn div_tz_exec(a: i64, d: i64) -> (r: i64)
    requires
        1 <= d,
        -2_200_000_000 <= a <= 2_200_000_000,
    ensures
        r as int == div_tz(a as int, d as int),
{
    if a >= 0 {
        a / d
    } else {
        -((-a) / d)
    }
}

/// Computes `a * b / d` rounding toward zero, for a nonnegative factor `b`
/// and a positive divisor `d`.
pub fn mul_div_tz(a: i64, b: i64, d: i64) -> (r: i64)
    requires
        1 <= d,
        0 <= b <= 150_000,
        -2_200_000_000 <= a <= 2_200_000_000,
    ensures
        r as int == div_tz((a as int) * (b as int), d as int),
        -2_200_000_000 * 150_000 <= r as int <= 2_200_000_000 * 150_000,
{
    assert(-2_200_000_000 * 150_000 <= (a as int) * (b as int) <= 2_200_000_000 * 150_000)
        by (nonlinear_arith)
        requires
            0 <= b <= 150_000,
            -2_200_000_000 <= a <= 2_200_000_000,
    ;
    if a >= 0 {
        let p: i64 = a * b;
        let q: i64 = p / d;
        assert(q as int == div_tz((a as int) * (b as int), d as int));
        q
    } else {
        let na: i64 = -a;
        assert(0 <= (na as int) * (b as int) <= 2_200_000_000 * 150_000
            && (na as int) * (b as int) == -((a as int) * (b as int))) by (nonlinear_arith)
            requires
                na as int == -(a as int),
                0 <= na <= 2_200_000_000,
                0 <= b <= 150_000,
        ;
        let p: i64 = na * b;
        let q: i64 = p / d;
        -q
    }
}

} // verus!
