use mandelbrot::complex::Complex;
use mandelbrot::params::{Numerics, RenderParams};
use mandelbrot::point::Point;
use mandelbrot::transform::{transform, Window};

type RealFn = fn(f32) -> f32;

fn reals() -> Numerics<f32, fn(u32) -> f32, RealFn, RealFn, RealFn, RealFn> {
    Numerics {
        zero: 0.0,
        one: 1.0,
        two: 2.0,
        four: 4.0,
        lift: |n| n as f32,
        sqrt: f32::sqrt,
        ln: f32::ln,
        log10: f32::log10,
        log2: f32::log2,
    }
}

fn sample(x: u32, y: u32, n: u32, window: Option<Window<f32>>) -> Complex<f32> {
    transform(Point::new(x, y).to_uv(n, |v| v as f32), 4.0, 2.0, window)
}

#[test]
fn pixel_becomes_unit_coordinates() {
    let uv = Point::new(1u32, 3u32).to_uv(4, |v| v as f32);
    assert_eq!((uv.x, uv.y), (0.25, 0.75));
    let uv = Point::new(6u32, 9u32).to_uv(3, |v| v as u64);
    assert_eq!((uv.x, uv.y), (2, 3));
}

#[test]
fn default_window_spans_minus_two_to_two() {
    let c = sample(0, 0, 4, None);
    assert_eq!((c.re, c.im), (-2.0, -2.0));
    let c = sample(3, 1, 4, None);
    assert_eq!((c.re, c.im), (1.0, -1.0));
    let c = sample(1023, 1023, 1024, None);
    assert!(c.re < 2.0 && c.im < 2.0);
}

#[test]
fn window_scales_then_moves() {
    let window = Window { scale: 0.5f32, center: Complex::new(-0.75, 0.25) };
    let c = sample(3, 1, 4, Some(window));
    assert_eq!((c.re, c.im), (-0.25, -0.25));
    let window = Window { scale: 2i64, center: Complex::new(1, -1) };
    let c = transform(Point::new(3i64, 0), 4, 2, Some(window));
    assert_eq!((c.re, c.im), (21, -5));
}

#[test]
fn transform_rises_along_each_axis() {
    let window = Some(Window { scale: 0.01f32, center: Complex::new(-0.7436, 0.1318) });
    for w in [None, window] {
        for n in [1u32, 2, 7, 64, 1000] {
            for x in 1..n {
                let (a, b) = (sample(x - 1, 0, n, w), sample(x, 0, n, w));
                assert!(a.re < b.re);
                assert_eq!(a.im, b.im);
                let (a, b) = (sample(0, x - 1, n, w), sample(0, x, n, w));
                assert!(a.im < b.im);
                assert_eq!(a.re, b.re);
            }
        }
    }
}

#[test]
fn distinct_pixels_are_sampled_at_distinct_points() {
    let n = 16;
    let mut seen: Vec<(u32, u32)> = Vec::new();
    for x in 0..n {
        for y in 0..n {
            let c = sample(x, y, n, None);
            let key = (c.re.to_bits(), c.im.to_bits());
            assert!(!seen.contains(&key));
            seen.push(key);
        }
    }
    assert_eq!(seen.len(), 256);
}

#[test]
fn samples_form_a_regular_grid() {
    let n = 8;
    for x in 0..n {
        let c = sample(x, x, n, None);
        assert_eq!(c.re, -2.0 + 0.5 * x as f32);
        assert_eq!(c.im, -2.0 + 0.5 * x as f32);
    }
}

#[test]
fn sample_goes_from_pixel_to_plane() {
    let window = Window { scale: 0.5f32, center: Complex::new(-0.75, 0.25) };
    let plain = RenderParams { resolution: 4, max_iterations: 50, window: None, palette_phase: 0.0 };
    let zoomed = RenderParams { window: Some(window), ..plain };
    for x in 0..4 {
        for y in 0..4 {
            let c = plain.sample(Point::new(x, y), &reals());
            assert_eq!((c.re, c.im), (x as f32 - 2.0, y as f32 - 2.0));
            let z = zoomed.sample(Point::new(x, y), &reals());
            assert_eq!((z.re, z.im), (c.re * 0.5 - 0.75, c.im * 0.5 + 0.25));
        }
    }
}

#[test]
fn samples_of_a_zoomed_image_are_distinct_and_rise() {
    let window = Window { scale: 0.001f32, center: Complex::new(-0.7436, 0.1318) };
    let params =
        RenderParams { resolution: 512, max_iterations: 50, window: Some(window), palette_phase: 0.0 };
    for x in 1..512 {
        let a = params.sample(Point::new(x - 1, 7), &reals());
        let b = params.sample(Point::new(x, 7), &reals());
        assert!(a.re < b.re);
        let a = params.sample(Point::new(7, x - 1), &reals());
        let b = params.sample(Point::new(7, x), &reals());
        assert!(a.im < b.im);
    }
}
