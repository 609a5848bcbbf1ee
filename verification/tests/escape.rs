use mandelbrot::complex::Complex;
use mandelbrot::escape::{binary, escape_time};
use mandelbrot::point::Point;
use mandelbrot::transform::transform;

fn reference_escape(c: (f32, f32), max_steps: u32) -> Option<u32> {
    let (mut re, mut im) = c;
    for n in 1..=max_steps {
        if re * re + im * im > 4.0 {
            return Some(n);
        }
        let next = (re * re - im * im + c.0, re * im + im * re + c.1);
        re = next.0;
        im = next.1;
    }
    None
}

#[test]
fn corner_pixel_escapes_at_once() {
    let uv = Point::new(0u32, 0u32).to_uv(4, |v| v as f32);
    let c = transform(uv, 4.0, 2.0, None);
    assert_eq!((c.re, c.im), (-2.0, -2.0));
    assert_eq!(binary(c, 50, 4.0, 0.0, 1.0), 1.0);
    let e = escape_time(c, 50, 4.0f32).unwrap();
    assert_eq!(e.step, 1);
    assert_eq!(e.norm_sq, 8.0);
}

#[test]
fn origin_never_escapes() {
    for k in [0u32, 1, 2, 50, 10_000] {
        assert!(escape_time(Complex::new(0.0f32, 0.0), k, 4.0).is_none());
        assert_eq!(binary(Complex::new(0.0f32, 0.0), k, 4.0, 0.0, 1.0), 0.0);
        assert!(escape_time(Complex::new(0i64, 0), k, 4).is_none());
    }
}

#[test]
fn center_pixel_of_an_even_image_is_the_origin() {
    let uv = Point::new(2u32, 2u32).to_uv(4, |v| v as f32);
    let c = transform(uv, 4.0, 2.0, None);
    assert_eq!((c.re, c.im), (0.0, 0.0));
    assert_eq!(binary(c, 50, 4.0, 0.0, 1.0), 0.0);
}

#[test]
fn escape_step_counts_from_one() {
    // The orbit of 1 is 1, 2, 5: the third point tested is the first outside.
    let e = escape_time(Complex::new(1i64, 0), 10, 4).unwrap();
    assert_eq!(e.step, 3);
    assert_eq!(e.norm_sq, 25);
    let e = escape_time(Complex::new(1.0f32, 0.0), 10, 4.0).unwrap();
    assert_eq!(e.step, 3);
    assert_eq!(e.norm_sq, 25.0);
}

#[test]
fn budget_decides_whether_an_escape_is_seen() {
    assert!(escape_time(Complex::new(1i64, 0), 2, 4).is_none());
    assert!(escape_time(Complex::new(1i64, 0), 3, 4).is_some());
    assert!(escape_time(Complex::new(3i64, 3), 0, 4).is_none());
}

#[test]
fn point_on_the_radius_is_not_outside() {
    // The orbit of -2 is -2, 2, 2, ...: magnitude two, never more.
    assert!(escape_time(Complex::new(-2i64, 0), 1000, 4).is_none());
    assert!(escape_time(Complex::new(-2.0f32, 0.0), 1000, 4.0).is_none());
}

#[test]
fn integer_points_of_the_set() {
    for c in [(0, 0), (-1, 0), (-2, 0), (0, 1), (0, -1)] {
        assert!(escape_time(Complex::new(c.0 as i64, c.1 as i64), 200, 4).is_none());
    }
    for c in [(1, 0), (1, 1), (-1, 1), (2, 0), (0, 2), (-2, -2)] {
        assert!(escape_time(Complex::new(c.0 as i64, c.1 as i64), 200, 4).is_some());
    }
}

#[test]
fn binary_output_is_zero_or_one() {
    for i in 0..40 {
        for j in 0..40 {
            let c = Complex::new(-2.5 + 0.125 * i as f32, -2.5 + 0.125 * j as f32);
            let w = binary(c, 30, 4.0, 0.0, 1.0);
            assert!(w == 0.0 || w == 1.0);
        }
    }
}

#[test]
fn evaluator_agrees_with_a_plain_loop() {
    for i in 0..=32 {
        for j in 0..=32 {
            let c = (-2.0 + 0.125 * i as f32, -2.0 + 0.125 * j as f32);
            let got = escape_time(Complex::new(c.0, c.1), 60, 4.0).map(|e| e.step);
            assert_eq!(got, reference_escape(c, 60));
        }
    }
}

#[test]
fn no_escape_is_reported_while_the_orbit_is_within_the_radius() {
    for i in 0..=32 {
        for j in 0..=32 {
            let c = Complex::new(-2.0 + 0.125 * i as f32, -2.0 + 0.125 * j as f32);
            if let Some(e) = escape_time(c, 60, 4.0) {
                assert!(e.norm_sq > 4.0);
                if c.norm_sq() <= 4.0 {
                    assert!(e.step >= 2);
                }
            }
        }
    }
}

#[test]
fn escape_never_comes_before_the_magnitude_bound_leaves_the_radius() {
    // For a point of magnitude at most s, the orbit after k iterations has
    // magnitude at most b(k), with b(0) = s and b(k + 1) = b(k)^2 + s.
    for re in -3i64..=3 {
        for im in -3i64..=3 {
            let c = Complex::new(re, im);
            let s = (0u128..).find(|s| s * s >= c.norm_sq() as u128).unwrap();
            if let Some(e) = escape_time(c, 6, 4) {
                let mut bound = s;
                for _ in 1..e.step {
                    bound = bound * bound + s;
                }
                assert!(bound * bound > 4);
            }
        }
    }
    for i in 0..=32 {
        for j in 0..=32 {
            let c = Complex::new(-2.0 + 0.125 * i as f32, -2.0 + 0.125 * j as f32);
            let s = (c.re as f64).hypot(c.im as f64);
            if let Some(e) = escape_time(c, 60, 4.0) {
                let mut bound = s;
                for _ in 1..e.step {
                    bound = bound * bound + s;
                }
                assert!(bound > 2.0);
            }
        }
    }
}

#[test]
fn points_near_the_origin_never_escape() {
    // With |c| <= 1/4 and |z| <= 1/2 the next point has |z^2 + c| <= 1/2.
    for i in 0..=16 {
        for j in 0..=16 {
            let c = Complex::new(-0.25 + 0.03125 * i as f32, -0.25 + 0.03125 * j as f32);
            if c.norm_sq() <= 0.0625 {
                assert!(escape_time(c, 500, 4.0).is_none());
                assert_eq!(binary(c, 500, 4.0, 0.0, 1.0), 0.0);
            }
        }
    }
}
