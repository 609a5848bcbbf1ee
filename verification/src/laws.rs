use vstd::prelude::*;
use vstd::std_specs::ops::{AddSpec, DivSpec, MulSpec, SubSpec};
use std::ops::{Add, Mul, Sub};
use crate::complex::Complex;

verus! {

/// Complex addition is commutative wherever the element type's addition is.
pub proof fn lemma_add_commutative<T: Add<T, Output = T>>(a: Complex<T>, b: Complex<T>)
    requires
        forall|x: T, y: T| #[trigger] x.add_spec(y) == y.add_spec(x),
    ensures
        a.add_spec(b) == b.add_spec(a),
{
}

/// Complex addition is associative wherever the element type's addition is.
pub proof fn lemma_add_associative<T: Add<T, Output = T>>(
    a: Complex<T>,
    b: Complex<T>,
    c: Complex<T>,
)
    requires
        forall|x: T, y: T, z: T| #[trigger]
            x.add_spec(y).add_spec(z) == x.add_spec(y.add_spec(z)),
    ensures
        a.add_spec(b).add_spec(c) == a.add_spec(b.add_spec(c)),
{
}

/// Complex multiplication is commutative wherever the element type's
/// multiplication and addition are.
pub proof fn lemma_mul_commutative<
    T: Clone + Copy + Mul<T, Output = T> + Add<T, Output = T> + Sub<T, Output = T>,
>(a: Complex<T>, b: Complex<T>)
    requires
        forall|x: T, y: T| #[trigger] x.mul_spec(y) == y.mul_spec(x),
        forall|x: T, y: T| #[trigger] x.add_spec(y) == y.add_spec(x),
    ensures
        a.mul_spec(b) == b.mul_spec(a),
{
}

/// Over `i64`, complex addition is commutative.
pub proof fn lemma_add_commutative_i64(a: Complex<i64>, b: Complex<i64>)
    ensures
        a.add_spec(b) == b.add_spec(a),
{
}

/// Over `i64`, complex addition is associative as long as no sum overflows.
pub proof fn lemma_add_associative_i64(a: Complex<i64>, b: Complex<i64>, c: Complex<i64>)
    requires
        a.add_req(b),
        b.add_req(c),
        a.add_spec(b).add_req(c),
    ensures
        a.add_req(b.add_spec(c)),
        a.add_spec(b).add_spec(c) == a.add_spec(b.add_spec(c)),
{
}

/// Over `i64`, complex multiplication is commutative.
pub proof fn lemma_mul_commutative_i64(a: Complex<i64>, b: Complex<i64>)
    ensures
        a.mul_req(b) == b.mul_req(a),
        a.mul_spec(b) == b.mul_spec(a),
{
    assert(a.re * b.re == b.re * a.re) by (nonlinear_arith);
    assert(a.im * b.im == b.im * a.im) by (nonlinear_arith);
    assert(a.re * b.im == b.im * a.re) by (nonlinear_arith);
    assert(a.im * b.re == b.re * a.im) by (nonlinear_arith);
}

/// Over `i64`, dividing a product by one of its factors gives back the other
/// factor exactly, as long as the factor is not zero and nothing overflows.
pub proof fn lemma_div_undoes_mul_i64(a: Complex<i64>, b: Complex<i64>)
    requires
        a.mul_req(b),
        a.mul_spec(b).div_req(b),
    ensures
        a.mul_spec(b).div_spec(b) == a,
{
    let p = a.mul_spec(b);
    let d = b.norm_sq_spec();
    assert(p.re == a.re * b.re - a.im * b.im);
    assert(p.im == a.re * b.im + a.im * b.re);
    assert(d == b.re * b.re + b.im * b.im);
    assert(d != 0);
    assert(b.re * b.re >= 0) by (nonlinear_arith);
    assert(b.im * b.im >= 0) by (nonlinear_arith);
    assert(d > 0);
    assert(p.div_re_numer(b) == p.re * b.re + p.im * b.im);
    assert(p.div_im_numer(b) == p.im * b.re - p.re * b.im);
    assert((a.re * b.re - a.im * b.im) * b.re + (a.re * b.im + a.im * b.re) * b.im == a.re * (b.re
        * b.re + b.im * b.im)) by (nonlinear_arith);
    assert((a.re * b.im + a.im * b.re) * b.re - (a.re * b.re - a.im * b.im) * b.im == a.im * (b.re
        * b.re + b.im * b.im)) by (nonlinear_arith);
    lemma_exact_quotient(a.re as int, d as int);
    lemma_exact_quotient(a.im as int, d as int);
}

/// A multiple of a positive `d`, divided by `d`, is the multiplier, whatever
/// its sign.
proof fn lemma_exact_quotient(x: int, d: int)
    requires
        d > 0,
    ensures
        (x * d) / d == x,
        (-(x * d)) / d == -x,
{
    vstd::arithmetic::div_mod::lemma_div_multiples_vanish(x, d);
    vstd::arithmetic::div_mod::lemma_div_multiples_vanish(-x, d);
    assert(x * d == d * x) by (nonlinear_arith);
    assert(-(x * d) == d * (-x)) by (nonlinear_arith);
}

} // verus!
