use vstd::prelude::*;
use vstd::std_specs::ops::{AddSpec, MulSpec, SubSpec};
use std::ops::{Add, Mul, Sub};
use crate::complex::Complex;
use crate::order::{exceeds, obeys_order};

verus! {

/// What the evaluator reports of a point whose orbit leaves the bailout
/// radius: the step at which it was found outside, counted from one, and its
/// squared magnitude at that step.
#[derive(Clone, Copy, Debug)]
pub struct Escape<T> {
    pub step: u32,
    pub norm_sq: T,
}

/// Whether sums, differences, products and comparisons of `T` compute what
/// the element type states of them.
pub open spec fn obeys_arith<T: Add<T, Output = T> + Sub<T, Output = T> + Mul<T, Output = T> + PartialOrd>() -> bool {
    &&& T::obeys_add_spec()
    &&& T::obeys_sub_spec()
    &&& T::obeys_mul_spec()
    &&& obeys_order::<T>()
}

/// The orbit of `c` under `z ← z² + c`, started at `z = c`: its point after
/// `n` iterations.
pub open spec fn orbit<T: Clone + Copy + Add<T, Output = T> + Sub<T, Output = T> + Mul<T, Output = T>>(
    c: Complex<T>,
    n: nat,
) -> Complex<T>
    decreases n,
{
    if n == 0 {
        c
    } else {
        let z = orbit(c, (n - 1) as nat);
        z.mul_spec(z).add_spec(c)
    }
}

/// Whether the orbit point after `n` iterations lies outside the bailout
/// radius, whose square is `bailout_sq`.
pub open spec fn outside_at<T: Clone + Copy + Add<T, Output = T> + Sub<T, Output = T> + Mul<T, Output = T> + PartialOrd>(
    c: Complex<T>,
    bailout_sq: T,
    n: nat,
) -> bool {
    exceeds(orbit(c, n).norm_sq_spec(), bailout_sq)
}

/// Whether the first `steps` points of the orbit all lie within the bailout
/// radius.
pub open spec fn stays_bounded<T: Clone + Copy + Add<T, Output = T> + Sub<T, Output = T> + Mul<T, Output = T> + PartialOrd>(
    c: Complex<T>,
    bailout_sq: T,
    steps: nat,
) -> bool {
    forall|i: nat| i < steps ==> !#[trigger] outside_at(c, bailout_sq, i)
}

/// Whether the evaluator's arithmetic on the orbit point after `i`
/// iterations is defined, in a run of at most `steps` steps: its squared
/// magnitude, and the next iteration where the run goes on.
pub open spec fn step_defined<T: Clone + Copy + Add<T, Output = T> + Sub<T, Output = T> + Mul<T, Output = T> + PartialOrd>(
    c: Complex<T>,
    bailout_sq: T,
    steps: nat,
    i: nat,
) -> bool {
    let z = orbit(c, i);
    &&& z.norm_sq_req()
    &&& i + 1 < steps && !outside_at(c, bailout_sq, i) ==> z.mul_req(z) && z.mul_spec(z).add_req(c)
}

/// Whether the evaluator's arithmetic is defined all along a run of at most
/// `steps` steps, up to the point where the orbit is first found outside.
pub open spec fn orbit_defined<T: Clone + Copy + Add<T, Output = T> + Sub<T, Output = T> + Mul<T, Output = T> + PartialOrd>(
    c: Complex<T>,
    bailout_sq: T,
    steps: nat,
) -> bool {
    forall|i: nat|
        i < steps && stays_bounded(c, bailout_sq, i) ==> #[trigger] step_defined(
            c,
            bailout_sq,
            steps,
            i,
        )
}

/// Whether `e` reports the first point of the orbit outside the bailout
/// radius.
pub open spec fn first_escape<T: Clone + Copy + Add<T, Output = T> + Sub<T, Output = T> + Mul<T, Output = T> + PartialOrd>(
    c: Complex<T>,
    bailout_sq: T,
    e: Escape<T>,
) -> bool {
    &&& e.step >= 1
    &&& stays_bounded(c, bailout_sq, (e.step - 1) as nat)
    &&& outside_at(c, bailout_sq, (e.step - 1) as nat)
    &&& e.norm_sq == orbit(c, (e.step - 1) as nat).norm_sq_spec()
}

/// Follows the orbit of `c` for at most `max_steps` steps. At each step the
/// current point is tested against the bailout radius, then iterated.
/// Returns the first step at which the point is outside, or `None` when all
/// `max_steps` points tested lie within.
pub fn escape_time<T: Clone + Copy + Add<T, Output = T> + Sub<T, Output = T> + Mul<T, Output = T> + PartialOrd>(
    c: Complex<T>,
    max_steps: u32,
    bailout_sq: T,
) -> (r: Option<Escape<T>>)
    requires
        obeys_arith::<T>(),
        orbit_defined(c, bailout_sq, max_steps as nat),
    ensures
        r is None <==> stays_bounded(c, bailout_sq, max_steps as nat),
        r matches Some(e) ==> e.step <= max_steps && first_escape(c, bailout_sq, e),
{
    let mut z = c;
    let mut n: u32 = 0;
    while n < max_steps
        invariant
            n <= max_steps,
            n < max_steps ==> z == orbit(c, n as nat),
            stays_bounded(c, bailout_sq, n as nat),
            obeys_arith::<T>(),
            orbit_defined(c, bailout_sq, max_steps as nat),
        decreases max_steps - n,
    {
        assert(step_defined(c, bailout_sq, max_steps as nat, n as nat));
        let m = z.norm_sq();
        if m > bailout_sq {
            assert(outside_at(c, bailout_sq, n as nat));
            return Some(Escape { step: n + 1, norm_sq: m });
        }
        assert(!outside_at(c, bailout_sq, n as nat));
        n = n + 1;
        if n < max_steps {
            z = z * z + c;
        }
    }
    None
}

/// The binary policy: `one` for a point whose orbit is found outside the
/// bailout radius within `max_steps` steps, `zero` for any other.
pub fn binary<T: Clone + Copy + Add<T, Output = T> + Sub<T, Output = T> + Mul<T, Output = T> + PartialOrd>(
    c: Complex<T>,
    max_steps: u32,
    bailout_sq: T,
    zero: T,
    one: T,
) -> (w: T)
    requires
        obeys_arith::<T>(),
        orbit_defined(c, bailout_sq, max_steps as nat),
    ensures
        w == zero || w == one,
        w == if stays_bounded(c, bailout_sq, max_steps as nat) { zero } else { one },
{
    match escape_time(c, max_steps, bailout_sq) {
        Some(_) => one,
        None => zero,
    }
}

/// No escape is reported before the orbit has left the bailout radius: a
/// point that itself lies within the radius is reported at the second step
/// at the earliest, and in general the step reported is the first at which
/// the orbit is outside.
pub proof fn lemma_escape_not_early<
    T: Clone + Copy + Add<T, Output = T> + Sub<T, Output = T> + Mul<T, Output = T> + PartialOrd,
>(c: Complex<T>, bailout_sq: T, e: Escape<T>, i: nat)
    requires
        first_escape(c, bailout_sq, e),
    ensures
        outside_at(c, bailout_sq, i) ==> e.step <= i + 1,
        !exceeds(c.norm_sq_spec(), bailout_sq) ==> e.step >= 2,
{
    if outside_at(c, bailout_sq, i) && e.step > i + 1 {
        assert(!outside_at(c, bailout_sq, i));
    }
}

/// A point that the iteration leaves where it is never moves: its orbit
/// stays at the point.
pub proof fn lemma_fixed_point_orbit<
    T: Clone + Copy + Add<T, Output = T> + Sub<T, Output = T> + Mul<T, Output = T>,
>(c: Complex<T>, n: nat)
    requires
        c.mul_spec(c).add_spec(c) == c,
    ensures
        orbit(c, n) == c,
    decreases n,
{
    if n > 0 {
        lemma_fixed_point_orbit(c, (n - 1) as nat);
    }
}

/// A point that the iteration leaves where it is, and that lies within the
/// bailout radius, is never found outside it, however many steps are taken.
/// The origin is such a point wherever zero times zero and zero plus zero
/// are zero.
pub proof fn lemma_fixed_point_stays_bounded<
    T: Clone + Copy + Add<T, Output = T> + Sub<T, Output = T> + Mul<T, Output = T> + PartialOrd,
>(c: Complex<T>, bailout_sq: T, steps: nat)
    requires
        c.mul_spec(c).add_spec(c) == c,
        !exceeds(c.norm_sq_spec(), bailout_sq),
    ensures
        stays_bounded(c, bailout_sq, steps),
{
    assert forall|i: nat| i < steps implies !#[trigger] outside_at(c, bailout_sq, i) by {
        lemma_fixed_point_orbit(c, i);
    }
}

/// Over `i64` the origin is never found outside a bailout radius, however
/// many steps are taken, and the evaluator's arithmetic on it is defined.
pub proof fn lemma_origin_stays_bounded_i64(bailout_sq: i64, steps: nat)
    requires
        bailout_sq >= 0,
    ensures
        orbit_defined(Complex { re: 0i64, im: 0i64 }, bailout_sq, steps),
        stays_bounded(Complex { re: 0i64, im: 0i64 }, bailout_sq, steps),
{
    let c = Complex { re: 0i64, im: 0i64 };
    lemma_fixed_point_stays_bounded(c, bailout_sq, steps);
    assert forall|i: nat| i < steps implies #[trigger] step_defined(c, bailout_sq, steps, i) by {
        lemma_fixed_point_orbit(c, i);
    }
}

} // verus!
