use vstd::prelude::*;
use vstd::std_specs::ops::{AddSpec, MulSpec};
use crate::complex::Complex;
use crate::escape::{first_escape, orbit, orbit_defined, outside_at, stays_bounded, step_defined, Escape};
use crate::hypot::Hypot;

verus! {

/// The bound that the magnitude of an orbit cannot pass: for a point of
/// magnitude at most `s`, the point after `k` iterations has magnitude at
/// most `b(k)`, where `b(0) = s` and `b(k + 1) = b(k)² + s`.
pub open spec fn magnitude_bound(s: nat, k: nat) -> nat
    decreases k,
{
    if k == 0 {
        s
    } else {
        let b = magnitude_bound(s, (k - 1) as nat);
        b * b + s
    }
}

/// The squared magnitude of a complex number over `i64`, as a mathematical
/// integer.
pub open spec fn norm_sq_int(z: Complex<i64>) -> int {
    z.re * z.re + z.im * z.im
}

/// Comparing squared magnitudes agrees with comparing magnitudes: a point
/// over `i64` whose magnitude, rounded down, is `h` lies outside the radius
/// `r` by its squared magnitude whenever `h` is above `r`, and has `h` at
/// most `r` whenever its squared magnitude is at most `r²`.
pub proof fn lemma_magnitude_test_i64(z: Complex<i64>, h: i64, r: int)
    requires
        z.re.is_hypot(z.im, h),
        r >= 0,
    ensures
        h > r ==> norm_sq_int(z) > r * r,
        norm_sq_int(z) <= r * r ==> h <= r,
{
    if h > r {
        assert(r * r < h * h) by (nonlinear_arith)
            requires
                0 <= r < h,
        ;
    }
}

/// Whether the first `k` iterations of the orbit of `c` are computed without
/// overflow.
pub open spec fn orbit_exact(c: Complex<i64>, k: nat) -> bool {
    forall|j: nat|
        j < k ==> (#[trigger] orbit(c, j)).mul_req(orbit(c, j)) && orbit(c, j).mul_spec(
            orbit(c, j),
        ).add_req(c)
}

/// One iteration `z² + c` takes a point of magnitude at most `r`, for a `c`
/// of magnitude at most `s`, to a point of magnitude at most `r² + s`. All
/// magnitudes are compared by their squares.
proof fn lemma_step_bound(x: int, y: int, a: int, b: int, r: int, s: int)
    requires
        r >= 0,
        s >= 0,
        x * x + y * y <= r * r,
        a * a + b * b <= s * s,
    ensures
        (x * x - y * y + a) * (x * x - y * y + a) + (x * y + y * x + b) * (x * y + y * x + b) <= (r
            * r + s) * (r * r + s),
{
    let p = x * x - y * y;
    let q = x * y + y * x;
    let n = x * x + y * y;
    let m = a * a + b * b;
    let d = p * a + q * b;
    let e = p * b - q * a;
    let big = r * r;
    assert(p * p + q * q == n * n) by (nonlinear_arith)
        requires
            p == x * x - y * y,
            q == x * y + y * x,
            n == x * x + y * y,
    ;
    assert(d * d + e * e == (p * p + q * q) * m) by {
        lemma_two_squares(p, q, a, b);
    }
    assert(e * e >= 0) by (nonlinear_arith);
    assert(0 <= n && 0 <= m) by (nonlinear_arith)
        requires
            n == x * x + y * y,
            m == a * a + b * b,
    ;
    assert(n * n <= big * big) by (nonlinear_arith)
        requires
            0 <= n <= big,
    ;
    assert((n * n) * m <= (big * big) * (s * s)) by (nonlinear_arith)
        requires
            0 <= n * n <= big * big,
            0 <= m <= s * s,
    ;
    assert((big * big) * (s * s) == (big * s) * (big * s)) by (nonlinear_arith);
    assert(0 <= big * s) by (nonlinear_arith)
        requires
            big == r * r,
            s >= 0,
    ;
    assert(d <= big * s) by (nonlinear_arith)
        requires
            d * d <= (big * s) * (big * s),
            0 <= big * s,
    ;
    assert((p + a) * (p + a) + (q + b) * (q + b) == (p * p + q * q) + 2 * d + m)
        by (nonlinear_arith)
        requires
            d == p * a + q * b,
            m == a * a + b * b,
    ;
    assert((big + s) * (big + s) == big * big + 2 * (big * s) + s * s) by (nonlinear_arith);
}

/// The product of two sums of two squares is a sum of two squares.
proof fn lemma_two_squares(p: int, q: int, a: int, b: int)
    ensures
        (p * a + q * b) * (p * a + q * b) + (p * b - q * a) * (p * b - q * a) == (p * p + q * q) * (a
            * a + b * b),
{
    let pa = p * a;
    let qb = q * b;
    let pb = p * b;
    let qa = q * a;
    assert((pa + qb) * (pa + qb) == pa * pa + 2 * (pa * qb) + qb * qb) by (nonlinear_arith);
    assert((pb - qa) * (pb - qa) == pb * pb - 2 * (pb * qa) + qa * qa) by (nonlinear_arith);
    assert(pa * qb == pb * qa) by (nonlinear_arith)
        requires
            pa == p * a,
            qb == q * b,
            pb == p * b,
            qa == q * a,
    ;
    assert(pa * pa == (p * p) * (a * a)) by (nonlinear_arith)
        requires
            pa == p * a,
    ;
    assert(qb * qb == (q * q) * (b * b)) by (nonlinear_arith)
        requires
            qb == q * b,
    ;
    assert(pb * pb == (p * p) * (b * b)) by (nonlinear_arith)
        requires
            pb == p * b,
    ;
    assert(qa * qa == (q * q) * (a * a)) by (nonlinear_arith)
        requires
            qa == q * a,
    ;
    let pp = p * p;
    let qq = q * q;
    let aa = a * a;
    let bb = b * b;
    assert((pp + qq) * (aa + bb) == pp * aa + pp * bb + qq * aa + qq * bb) by (nonlinear_arith);
}

/// The magnitude of an orbit over `i64` stays within the bound: for a point
/// `c` of magnitude at most `s`, the point after `k` iterations has
/// magnitude at most `magnitude_bound(s, k)`, as long as those iterations
/// do not overflow. Magnitudes are compared by their squares.
pub proof fn lemma_orbit_within_bound_i64(c: Complex<i64>, s: nat, k: nat)
    requires
        norm_sq_int(c) <= s * s,
        orbit_exact(c, k),
    ensures
        norm_sq_int(orbit(c, k)) <= magnitude_bound(s, k) * magnitude_bound(s, k),
    decreases k,
{
    if k > 0 {
        let j = (k - 1) as nat;
        lemma_orbit_within_bound_i64(c, s, j);
        let z = orbit(c, j);
        assert(z.mul_req(z) && z.mul_spec(z).add_req(c));
        lemma_step_bound(
            z.re as int,
            z.im as int,
            c.re as int,
            c.im as int,
            magnitude_bound(s, j) as int,
            s as int,
        );
    }
}

/// Over `i64`, no escape is reported before the bound on the magnitude has
/// left the bailout radius: where a point of magnitude at most `s` is
/// reported to escape at step `n`, the bound after `n - 1` iterations lies
/// outside the radius. So no step whose bound is within the radius reports
/// an escape.
pub proof fn lemma_escape_respects_bound_i64(
    c: Complex<i64>,
    bailout_sq: i64,
    steps: nat,
    e: Escape<i64>,
    s: nat,
)
    requires
        orbit_defined(c, bailout_sq, steps),
        e.step <= steps,
        first_escape(c, bailout_sq, e),
        norm_sq_int(c) <= s * s,
    ensures
        magnitude_bound(s, (e.step - 1) as nat) * magnitude_bound(s, (e.step - 1) as nat)
            > bailout_sq,
{
    let last = (e.step - 1) as nat;
    assert forall|j: nat| j < last implies (#[trigger] orbit(c, j)).mul_req(orbit(c, j)) && orbit(
        c,
        j,
    ).mul_spec(orbit(c, j)).add_req(c) by {
        assert(stays_bounded(c, bailout_sq, j));
        assert(step_defined(c, bailout_sq, steps, j));
        assert(!outside_at(c, bailout_sq, j));
    }
    lemma_orbit_within_bound_i64(c, s, last);
    assert(step_defined(c, bailout_sq, steps, last));
    assert(outside_at(c, bailout_sq, last));
}

} // verus!
