use vstd::prelude::*;
use vstd::std_specs::ops::{AddSpec, DivSpec, MulSpec, SubSpec};
use std::ops::{Add, Div, Mul, Sub};
use crate::complex::Complex;
use crate::escape::{
    escape_time, first_escape, obeys_arith, orbit_defined, stays_bounded, Escape,
};
use crate::params::{Numerics, RenderParams};
use crate::order::{
    at_most, clamp, clamp_spec, lemma_bounds_in_range, lemma_clamp_in_range,
    lemma_not_outside_is_within, mirrored_order, not_outside, obeys_order, total_order, within,
};

verus! {

/// How the evaluator turns what it found of a point into a weight.
#[derive(Debug, Clone, Copy, PartialEq, Eq)]
pub enum Policy {
    /// One for a point that escaped, zero for any other.
    Binary,
    /// The logarithm of the escape step over that of the step budget.
    IterationCount,
    /// The escape step, corrected by how far past the bailout radius the
    /// orbit landed, over the step budget. The correction is taken of the
    /// squared magnitude at escape.
    OrbitTrap,
    /// As `OrbitTrap`, with the same correction taken of the magnitude
    /// itself.
    OrbitTrapUnsquared,
}

/// Whether `raw` is the strength that the iteration-count policy gives an
/// escape at `step` in a run of `max_steps` steps: the logarithm of the step
/// over the logarithm of the step budget.
pub open spec fn is_log_ratio<T: Div<T, Output = T>, L: Fn(u32) -> T, N: Fn(T) -> T>(
    lift: L,
    ln: N,
    step: u32,
    max_steps: u32,
    raw: T,
) -> bool {
    exists|n: T, k: T, log_n: T, log_k: T|
        {
            &&& call_ensures(lift, (step,), n)
            &&& call_ensures(lift, (max_steps,), k)
            &&& call_ensures(ln, (n,), log_n)
            &&& call_ensures(ln, (k,), log_k)
            &&& log_n.div_req(log_k)
            &&& raw == log_n.div_spec(log_k)
        }
}

/// Whether the iteration-count policy can be computed for an escape at
/// `step`: the counts can be lifted, their logarithms taken, and the one
/// divided by the other.
pub open spec fn log_ratio_req<T: Div<T, Output = T>, L: Fn(u32) -> T, N: Fn(T) -> T>(
    lift: L,
    ln: N,
    step: u32,
    max_steps: u32,
) -> bool {
    &&& call_requires(lift, (step,))
    &&& call_requires(lift, (max_steps,))
    &&& forall|n: T| call_ensures(lift, (step,), n) ==> call_requires(ln, (n,))
    &&& forall|k: T| call_ensures(lift, (max_steps,), k) ==> call_requires(ln, (k,))
    &&& forall|n: T, k: T, log_n: T, log_k: T|
        call_ensures(lift, (step,), n) && call_ensures(lift, (max_steps,), k) && call_ensures(
            ln,
            (n,),
            log_n,
        ) && call_ensures(ln, (k,), log_k) ==> log_n.div_req(log_k)
}

/// The iteration-count policy: `zero` for a point that did not escape; for
/// one that escaped at step `n` of at most `max_steps`, the ratio
/// `ln(n) / ln(max_steps)` limited to the range from `zero` to `one`. Steps
/// count from one, so the logarithm of zero is never taken; a budget of at
/// least two steps keeps the divisor from being the logarithm of one.
pub fn iteration_smoothed<
    T: Copy + PartialOrd + Div<T, Output = T>,
    L: Fn(u32) -> T,
    S,
    N: Fn(T) -> T,
    G,
    H,
>(escape: Option<Escape<T>>, max_steps: u32, num: &Numerics<T, L, S, N, G, H>) -> (w: T)
    requires
        max_steps >= 2,
        obeys_order::<T>(),
        T::obeys_div_spec(),
        at_most(num.zero, num.one),
        escape matches Some(e) ==> log_ratio_req(num.lift, num.ln, e.step, max_steps),
    ensures
        escape is None ==> w == num.zero,
        escape matches Some(e) ==> exists|raw: T|
            is_log_ratio(num.lift, num.ln, e.step, max_steps, raw) && w == clamp_spec(
                raw,
                num.zero,
                num.one,
            ),
        mirrored_order::<T>() ==> not_outside(w, num.zero, num.one),
        total_order::<T>() ==> within(w, num.zero, num.one),
{
    proof {
        if mirrored_order::<T>() {
            lemma_bounds_in_range(num.zero, num.one);
        }
    }
    let w = match escape {
        None => num.zero,
        Some(e) => {
            let n = (num.lift)(e.step);
            let k = (num.lift)(max_steps);
            let log_n = (num.ln)(n);
            let log_k = (num.ln)(k);
            let raw = log_n / log_k;
            assert(is_log_ratio(num.lift, num.ln, e.step, max_steps, raw));
            proof {
                if mirrored_order::<T>() {
                    lemma_clamp_in_range(raw, num.zero, num.one);
                }
            }
            clamp(raw, num.zero, num.one)
        },
    };
    proof {
        if total_order::<T>() {
            lemma_not_outside_is_within(w, num.zero, num.one);
        }
    }
    w
}

/// Whether `m` is the measure that the orbit-trap policy takes of the
/// squared magnitude `norm_sq`: the squared magnitude itself, or its square
/// root where the policy works on the magnitude.
pub open spec fn is_measure<T, S: Fn(T) -> T>(sqrt: S, squared: bool, norm_sq: T, m: T) -> bool {
    if squared {
        m == norm_sq
    } else {
        call_ensures(sqrt, (norm_sq,), m)
    }
}

/// Whether `raw` is the strength that the orbit-trap policy gives the escape
/// `e` in a run of `max_steps` steps: with `m` the measure of the magnitude
/// at escape and `nu = log2(log10(m) / two)`, the value
/// `((n + 1) - nu) / max_steps`.
pub open spec fn is_trap_strength<
    T: Div<T, Output = T> + Sub<T, Output = T>,
    L: Fn(u32) -> T,
    S: Fn(T) -> T,
    G: Fn(T) -> T,
    H: Fn(T) -> T,
>(
    lift: L,
    sqrt: S,
    log10: G,
    log2: H,
    two: T,
    squared: bool,
    e: Escape<T>,
    max_steps: u32,
    raw: T,
) -> bool {
    exists|m: T, log_m: T, nu: T, after: T, k: T|
        {
            &&& is_measure(sqrt, squared, e.norm_sq, m)
            &&& call_ensures(log10, (m,), log_m)
            &&& log_m.div_req(two)
            &&& call_ensures(log2, (log_m.div_spec(two),), nu)
            &&& call_ensures(lift, ((e.step + 1) as u32,), after)
            &&& call_ensures(lift, (max_steps,), k)
            &&& after.sub_req(nu)
            &&& after.sub_spec(nu).div_req(k)
            &&& raw == after.sub_spec(nu).div_spec(k)
        }
}

/// Whether the orbit-trap policy can be computed for the escape `e`: each
/// function handed in accepts what the one before it returned, and the
/// element type's divisions and difference are defined on those values.
pub open spec fn trap_req<
    T: Div<T, Output = T> + Sub<T, Output = T>,
    L: Fn(u32) -> T,
    S: Fn(T) -> T,
    G: Fn(T) -> T,
    H: Fn(T) -> T,
>(
    lift: L,
    sqrt: S,
    log10: G,
    log2: H,
    two: T,
    squared: bool,
    e: Escape<T>,
    max_steps: u32,
) -> bool {
    &&& e.step < u32::MAX
    &&& !squared ==> call_requires(sqrt, (e.norm_sq,))
    &&& forall|m: T| is_measure(sqrt, squared, e.norm_sq, m) ==> call_requires(log10, (m,))
    &&& forall|m: T, log_m: T|
        is_measure(sqrt, squared, e.norm_sq, m) && call_ensures(log10, (m,), log_m)
            ==> log_m.div_req(two) && call_requires(log2, (log_m.div_spec(two),))
    &&& call_requires(lift, ((e.step + 1) as u32,))
    &&& call_requires(lift, (max_steps,))
    &&& forall|m: T, log_m: T, nu: T, after: T, k: T|
        #![trigger
            call_ensures(log10, (m,), log_m),
            call_ensures(log2, (log_m.div_spec(two),), nu),
            call_ensures(lift, ((e.step + 1) as u32,), after),
            call_ensures(lift, (max_steps,), k)
        ]
        {
            &&& is_measure(sqrt, squared, e.norm_sq, m)
            &&& call_ensures(log10, (m,), log_m)
            &&& call_ensures(log2, (log_m.div_spec(two),), nu)
            &&& call_ensures(lift, ((e.step + 1) as u32,), after)
            &&& call_ensures(lift, (max_steps,), k)
        } ==> after.sub_req(nu) && after.sub_spec(nu).div_req(k)
}

/// The orbit-trap policy: `zero` for a point that did not escape; for one
/// that escaped at step `n`, the value `((n + 1) - nu) / max_steps` limited
/// to the range from `zero` to `one`, where `nu = log2(log10(m) / two)`.
/// With `squared`, `m` is the squared magnitude at escape, which the
/// division by two makes up for; without it, `m` is the magnitude itself,
/// under the same formula.
pub fn orbit_trap<
    T: Copy + PartialOrd + Div<T, Output = T> + Sub<T, Output = T>,
    L: Fn(u32) -> T,
    S: Fn(T) -> T,
    N,
    G: Fn(T) -> T,
    H: Fn(T) -> T,
>(escape: Option<Escape<T>>, max_steps: u32, squared: bool, num: &Numerics<T, L, S, N, G, H>) -> (w: T)
    requires
        obeys_order::<T>(),
        T::obeys_div_spec(),
        T::obeys_sub_spec(),
        at_most(num.zero, num.one),
        escape matches Some(e) ==> trap_req(
            num.lift,
            num.sqrt,
            num.log10,
            num.log2,
            num.two,
            squared,
            e,
            max_steps,
        ),
    ensures
        escape is None ==> w == num.zero,
        escape matches Some(e) ==> exists|raw: T|
            is_trap_strength(
                num.lift,
                num.sqrt,
                num.log10,
                num.log2,
                num.two,
                squared,
                e,
                max_steps,
                raw,
            ) && w == clamp_spec(raw, num.zero, num.one),
        mirrored_order::<T>() ==> not_outside(w, num.zero, num.one),
        total_order::<T>() ==> within(w, num.zero, num.one),
{
    proof {
        if mirrored_order::<T>() {
            lemma_bounds_in_range(num.zero, num.one);
        }
    }
    let w = match escape {
        None => num.zero,
        Some(e) => {
            let m = if squared {
                e.norm_sq
            } else {
                (num.sqrt)(e.norm_sq)
            };
            assert(is_measure(num.sqrt, squared, e.norm_sq, m));
            let log_m = (num.log10)(m);
            let nu = (num.log2)(log_m / num.two);
            let after = (num.lift)(e.step + 1);
            let k = (num.lift)(max_steps);
            let raw = (after - nu) / k;
            assert(is_trap_strength(
                num.lift,
                num.sqrt,
                num.log10,
                num.log2,
                num.two,
                squared,
                e,
                max_steps,
                raw,
            ));
            proof {
                if mirrored_order::<T>() {
                    lemma_clamp_in_range(raw, num.zero, num.one);
                }
            }
            clamp(raw, num.zero, num.one)
        },
    };
    proof {
        if total_order::<T>() {
            lemma_not_outside_is_within(w, num.zero, num.one);
        }
    }
    w
}

/// Whether `w` is the weight that `policy` gives the escape `e` in a run of
/// `max_steps` steps.
pub open spec fn is_weight<
    T: PartialOrd + Div<T, Output = T> + Sub<T, Output = T>,
    L: Fn(u32) -> T,
    S: Fn(T) -> T,
    N: Fn(T) -> T,
    G: Fn(T) -> T,
    H: Fn(T) -> T,
>(policy: Policy, num: Numerics<T, L, S, N, G, H>, e: Escape<T>, max_steps: u32, w: T) -> bool {
    match policy {
        Policy::Binary => w == num.one,
        Policy::IterationCount => exists|raw: T|
            is_log_ratio(num.lift, num.ln, e.step, max_steps, raw) && w == clamp_spec(
                raw,
                num.zero,
                num.one,
            ),
        Policy::OrbitTrap => exists|raw: T|
            is_trap_strength(num.lift, num.sqrt, num.log10, num.log2, num.two, true, e, max_steps, raw)
                && w == clamp_spec(raw, num.zero, num.one),
        Policy::OrbitTrapUnsquared => exists|raw: T|
            is_trap_strength(
                num.lift,
                num.sqrt,
                num.log10,
                num.log2,
                num.two,
                false,
                e,
                max_steps,
                raw,
            ) && w == clamp_spec(raw, num.zero, num.one),
    }
}

/// Whether `policy` can be computed for the escape `e`.
pub open spec fn weight_req<
    T: PartialOrd + Div<T, Output = T> + Sub<T, Output = T>,
    L: Fn(u32) -> T,
    S: Fn(T) -> T,
    N: Fn(T) -> T,
    G: Fn(T) -> T,
    H: Fn(T) -> T,
>(policy: Policy, num: Numerics<T, L, S, N, G, H>, e: Escape<T>, max_steps: u32) -> bool {
    match policy {
        Policy::Binary => true,
        Policy::IterationCount => log_ratio_req(num.lift, num.ln, e.step, max_steps),
        Policy::OrbitTrap => trap_req(
            num.lift,
            num.sqrt,
            num.log10,
            num.log2,
            num.two,
            true,
            e,
            max_steps,
        ),
        Policy::OrbitTrapUnsquared => trap_req(
            num.lift,
            num.sqrt,
            num.log10,
            num.log2,
            num.two,
            false,
            e,
            max_steps,
        ),
    }
}

/// Evaluates the point `c` under `policy`: follows its orbit for at most
/// as many steps as `params` allow and weighs what was found. A point whose
/// orbit stays within the bailout radius has weight zero under every
/// policy; one that escapes has the weight that the policy gives its first
/// escape.
pub fn evaluate<
    T: Clone + Copy + PartialOrd + Add<T, Output = T> + Sub<T, Output = T> + Mul<T, Output = T> + Div<
        T,
        Output = T,
    >,
    L: Fn(u32) -> T,
    S: Fn(T) -> T,
    N: Fn(T) -> T,
    G: Fn(T) -> T,
    H: Fn(T) -> T,
>(
    policy: Policy,
    params: &RenderParams<T>,
    c: Complex<T>,
    bailout_sq: T,
    num: &Numerics<T, L, S, N, G, H>,
) -> (w: T)
    requires
        obeys_arith::<T>(),
        orbit_defined(c, bailout_sq, params.max_iterations as nat),
        at_most(num.zero, num.one),
        policy != Policy::Binary ==> T::obeys_div_spec(),
        policy == Policy::IterationCount ==> params.max_iterations >= 2,
        forall|e: Escape<T>|
            e.step <= params.max_iterations && first_escape(c, bailout_sq, e) ==> weight_req(
                policy,
                *num,
                e,
                params.max_iterations,
            ),
    ensures
        stays_bounded(c, bailout_sq, params.max_iterations as nat) ==> w == num.zero,
        !stays_bounded(c, bailout_sq, params.max_iterations as nat) ==> exists|e: Escape<T>|
            e.step <= params.max_iterations && first_escape(c, bailout_sq, e) && is_weight(
                policy,
                *num,
                e,
                params.max_iterations,
                w,
            ),
        policy == Policy::Binary ==> w == num.zero || w == num.one,
        mirrored_order::<T>() ==> not_outside(w, num.zero, num.one),
        total_order::<T>() ==> within(w, num.zero, num.one),
{
    proof {
        if mirrored_order::<T>() {
            lemma_bounds_in_range(num.zero, num.one);
        }
    }
    let max_steps = params.max_iterations;
    let escape = escape_time(c, max_steps, bailout_sq);
    let w = match policy {
        Policy::Binary => match escape {
            None => num.zero,
            Some(_) => num.one,
        },
        Policy::IterationCount => iteration_smoothed(escape, max_steps, num),
        Policy::OrbitTrap => orbit_trap(escape, max_steps, true, num),
        Policy::OrbitTrapUnsquared => orbit_trap(escape, max_steps, false, num),
    };
    proof {
        if let Some(e) = escape {
            assert(is_weight(policy, *num, e, max_steps, w));
        }
        if total_order::<T>() {
            lemma_not_outside_is_within(w, num.zero, num.one);
        }
    }
    w
}

} // verus!
