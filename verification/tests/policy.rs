use mandelbrot::complex::Complex;
use mandelbrot::escape::{escape_time, Escape};
use mandelbrot::order::clamp;
use mandelbrot::params::{Numerics, RenderParams};
use mandelbrot::point::Point;
use mandelbrot::policy::{evaluate, iteration_smoothed, orbit_trap, Policy};

type RealFn = fn(f32) -> f32;

fn reals() -> Numerics<f32, fn(u32) -> f32, RealFn, RealFn, RealFn, RealFn> {
    Numerics {
        zero: 0.0,
        one: 1.0,
        two: 2.0,
        four: 4.0,
        lift: |n| n as f32,
        sqrt: f32::sqrt,
        ln: f32::ln,
        log10: f32::log10,
        log2: f32::log2,
    }
}

fn params(resolution: u32, max_iterations: u32) -> RenderParams<f32> {
    RenderParams { resolution, max_iterations, window: None, palette_phase: 0.0 }
}

const POLICIES: [Policy; 4] =
    [Policy::Binary, Policy::IterationCount, Policy::OrbitTrap, Policy::OrbitTrapUnsquared];

#[test]
fn clamp_limits_to_the_range() {
    assert_eq!(clamp(-0.5f32, 0.0, 1.0), 0.0);
    assert_eq!(clamp(1.5f32, 0.0, 1.0), 1.0);
    assert_eq!(clamp(0.25f32, 0.0, 1.0), 0.25);
    assert_eq!(clamp(0.0f32, 0.0, 1.0), 0.0);
    assert_eq!(clamp(1.0f32, 0.0, 1.0), 1.0);
    assert_eq!(clamp(7i64, -3, 3), 3);
    assert_eq!(clamp(-7i64, -3, 3), -3);
    assert_eq!(clamp(5u8, 5, 5), 5);
}

#[test]
fn origin_has_weight_zero_under_every_policy() {
    let origin = Complex::new(0.0f32, 0.0);
    for k in [2u32, 3, 50, 1000] {
        for policy in POLICIES {
            assert_eq!(evaluate(policy, &params(4, k), origin, 4.0, &reals()), 0.0);
        }
    }
}

#[test]
fn corner_pixel_has_binary_weight_one() {
    let p = params(4, 50);
    let c = p.sample(Point::new(0, 0), &reals());
    assert_eq!((c.re, c.im), (-2.0, -2.0));
    assert_eq!(evaluate(Policy::Binary, &p, c, 4.0, &reals()), 1.0);
}

#[test]
fn center_pixel_of_an_even_image_has_weight_zero() {
    for n in [2u32, 4, 64, 2048] {
        let p = params(n, 50);
        let c = p.sample(Point::new(n / 2, n / 2), &reals());
        assert_eq!((c.re, c.im), (0.0, 0.0));
        for policy in POLICIES {
            assert_eq!(evaluate(policy, &p, c, 4.0, &reals()), 0.0);
        }
    }
}

#[test]
fn iteration_count_weight_is_a_ratio_of_logarithms() {
    let e = Escape { step: 5u32, norm_sq: 9.0f32 };
    let w = iteration_smoothed(Some(e), 50, &reals());
    assert_eq!(w, 5.0f32.ln() / 50.0f32.ln());
    assert!((w - 0.411_408).abs() < 1e-5);
}

#[test]
fn immediate_escape_has_iteration_count_weight_zero() {
    let c = Complex::new(-2.0, -2.0);
    assert_eq!(evaluate(Policy::IterationCount, &params(4, 50), c, 4.0, &reals()), 0.0);
}

#[test]
fn escape_at_the_last_step_has_iteration_count_weight_one() {
    let e = Escape { step: 50u32, norm_sq: 4.5f32 };
    assert_eq!(iteration_smoothed(Some(e), 50, &reals()), 1.0);
}

#[test]
fn orbit_trap_weight_follows_the_formula() {
    let e = Escape { step: 7u32, norm_sq: 100.0f32 };
    // nu = log2(log10(100) / 2) = log2(1) = 0, so the weight is (7 + 1) / 50.
    assert_eq!(orbit_trap(Some(e), 50, true, &reals()), 8.0 / 50.0);
    // On the magnitude itself: nu = log2(log10(10) / 2) = -1, so (8 + 1) / 50.
    assert_eq!(orbit_trap(Some(e), 50, false, &reals()), 9.0 / 50.0);
}

#[test]
fn orbit_trap_weight_is_limited_from_above() {
    let e = Escape { step: 50u32, norm_sq: 4.5f32 };
    assert_eq!(orbit_trap(Some(e), 50, true, &reals()), 1.0);
}

#[test]
fn evaluate_matches_the_policy_functions() {
    let c = Complex::new(0.3f32, 0.6);
    let p = params(4, 40);
    let escape = escape_time(c, 40, 4.0);
    assert!(escape.is_some());
    assert_eq!(evaluate(Policy::Binary, &p, c, 4.0, &reals()), 1.0);
    assert_eq!(
        evaluate(Policy::IterationCount, &p, c, 4.0, &reals()),
        iteration_smoothed(escape, 40, &reals())
    );
    assert_eq!(
        evaluate(Policy::OrbitTrap, &p, c, 4.0, &reals()),
        orbit_trap(escape, 40, true, &reals())
    );
    assert_eq!(
        evaluate(Policy::OrbitTrapUnsquared, &p, c, 4.0, &reals()),
        orbit_trap(escape, 40, false, &reals())
    );
}

#[test]
fn the_two_orbit_trap_policies_differ() {
    let e = Escape { step: 3u32, norm_sq: 37.5f32 };
    let squared = orbit_trap(Some(e), 20, true, &reals());
    let unsquared = orbit_trap(Some(e), 20, false, &reals());
    assert!((unsquared - squared - 1.0 / 20.0).abs() < 1e-6);
}

#[test]
fn weights_lie_in_the_unit_range() {
    for k in [2u32, 3, 17, 60] {
        for i in 0..=40 {
            for j in 0..=40 {
                let c = Complex::new(-2.5 + 0.125 * i as f32, -2.5 + 0.125 * j as f32);
                for policy in POLICIES {
                    let w = evaluate(policy, &params(4, k), c, 4.0, &reals());
                    assert!((0.0..=1.0).contains(&w));
                }
            }
        }
    }
}

#[test]
fn policies_on_integers_with_stand_in_functions() {
    let num = Numerics {
        zero: 0i64,
        one: 100,
        two: 2,
        four: 4,
        lift: |n: u32| n as i64,
        sqrt: |v: i64| v,
        ln: |v: i64| v / 2,
        log10: |v: i64| v / 2,
        log2: |v: i64| v,
    };
    let e = Escape { step: 7u32, norm_sq: 12i64 };
    assert_eq!(orbit_trap(Some(e), 2, true, &num), 2);
    assert_eq!(iteration_smoothed(Some(e), 2, &num), 3);
    assert_eq!(iteration_smoothed(None, 2, &num), 0);
    let p = RenderParams { resolution: 1, max_iterations: 5, window: None, palette_phase: 0i64 };
    assert_eq!(evaluate(Policy::Binary, &p, Complex::new(1, 0), 4, &num), 100);
    assert_eq!(evaluate(Policy::Binary, &p, Complex::new(-1, 0), 4, &num), 0);
}
