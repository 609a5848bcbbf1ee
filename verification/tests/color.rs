use mandelbrot::color::Color;
use mandelbrot::palette::Palette;

fn to_pixel(c: Color<f32>) -> (u8, u8, u8) {
    c.to_rgb(0.0, 1.0, 255.0, |v| v as u8)
}

fn cosine_palette() -> Palette<f32> {
    Palette {
        offset: Color::new(0.5, 0.5, 0.5),
        amplitude: Color::new(0.5, 0.5, 0.5),
        frequency: Color::new(1.0, 1.0, 1.0),
        phase: Color::new(0.0, 0.1, 0.2),
    }
}

fn palette_color(t: f32, shift: f32) -> Color<f32> {
    cosine_palette().color(t, shift, std::f32::consts::TAU, |v: f32| v.fract(), |v: f32| v.cos())
}

#[test]
fn half_gray_truncates_to_127() {
    assert_eq!(to_pixel(Color::grayscale(0.5, 0.0, 1.0)), (127, 127, 127));
}

#[test]
fn black_and_white_pixels() {
    assert_eq!(to_pixel(Color::new(0.0, 0.0, 0.0)), (0, 0, 0));
    assert_eq!(to_pixel(Color::new(1.0, 1.0, 1.0)), (255, 255, 255));
}

#[test]
fn channels_out_of_range_do_not_wrap() {
    assert_eq!(to_pixel(Color::new(-0.25, 1.5, 300.0)), (0, 255, 255));
    assert_eq!(to_pixel(Color::new(1.004, -1e9, 0.999)), (255, 0, 254));
}

#[test]
fn pixel_of_integer_percentages() {
    let c = Color::new(-5i64, 50, 180);
    assert_eq!(c.to_rgb(0, 100, 255, |v| (v / 100) as u8), (0, 127, 255));
}

#[test]
fn grayscale_repeats_the_luminance() {
    let c = Color::grayscale(0.25f32, 0.0, 1.0);
    assert_eq!((c.r, c.g, c.b), (0.25, 0.25, 0.25));
}

#[test]
fn color_arithmetic_is_per_channel() {
    let a = Color::new(1.0f32, 2.0, 3.0);
    let b = Color::new(0.5f32, 0.25, -1.0);
    let s = a + b;
    assert_eq!((s.r, s.g, s.b), (1.5, 2.25, 2.0));
    let p = a * b;
    assert_eq!((p.r, p.g, p.b), (0.5, 0.5, -3.0));
    let k = a * 2.0;
    assert_eq!((k.r, k.g, k.b), (2.0, 4.0, 6.0));
    let l = 3i64 * Color::new(1i64, -2, 5);
    assert_eq!((l.r, l.g, l.b), (3, -6, 15));
}

#[test]
fn clamp_limits_each_channel() {
    let c = Color::new(-1.0f32, 0.5, 2.0).clamp(0.0, 1.0);
    assert_eq!((c.r, c.g, c.b), (0.0, 0.5, 1.0));
}

#[test]
fn cosine_is_taken_of_each_channel() {
    let c = Color::new(0.0f32, std::f32::consts::PI, 1.0).cos(|v: f32| v.cos());
    assert_eq!(c.r, 1.0);
    assert!((c.g + 1.0).abs() < 1e-6);
    assert_eq!(c.b, 1.0f32.cos());
}

#[test]
fn cosine_palette_at_zero() {
    let c = palette_color(0.0, 0.0);
    let tau = std::f64::consts::TAU;
    assert!((c.r as f64 - 1.0).abs() < 1e-6);
    assert!((c.g as f64 - (0.5 + 0.5 * (tau * 0.1).cos())).abs() < 1e-6);
    assert!((c.b as f64 - (0.5 + 0.5 * (tau * 0.2).cos())).abs() < 1e-6);
    assert!((c.g - 0.904_508_5).abs() < 1e-6);
    assert!((c.b - 0.654_508_5).abs() < 1e-6);
}

#[test]
fn cosine_palette_repeats_with_period_one() {
    for shift in [0.0f32, 0.3, 0.75] {
        for i in 0..20 {
            let t = 0.05 * i as f32;
            let (a, b) = (palette_color(t, shift), palette_color(t + 1.0, shift));
            assert!((a.r - b.r).abs() < 1e-5);
            assert!((a.g - b.g).abs() < 1e-5);
            assert!((a.b - b.b).abs() < 1e-5);
        }
    }
}

#[test]
fn cosine_palette_on_dyadic_weights_repeats_exactly() {
    for t in [0.0f32, 0.25, 0.5, 0.875] {
        let (a, b) = (palette_color(t, 0.0), palette_color(t + 1.0, 0.0));
        assert_eq!((a.r, a.g, a.b), (b.r, b.g, b.b));
    }
}

#[test]
fn palette_with_stand_in_functions_on_integers() {
    let p = Palette {
        offset: Color::new(5i64, 5, 5),
        amplitude: Color::new(2i64, 3, 4),
        frequency: Color::new(1i64, 1, 1),
        phase: Color::new(0i64, 1, 2),
    };
    let c = p.color(13, 4, 3, |v| v % 10, |v| -v);
    assert_eq!((c.r, c.g, c.b), (-37, -67, -103));
}

#[test]
fn gray_of_the_bounds_themselves() {
    let c = Color::grayscale(0.0f32, 0.0, 1.0);
    assert_eq!((c.r, c.g, c.b), (0.0, 0.0, 0.0));
    let c = Color::grayscale(1.0f32, 0.0, 1.0);
    assert_eq!(to_pixel(c), (255, 255, 255));
    let c = Color::grayscale(40i64, 0, 100);
    assert_eq!((c.r, c.g, c.b), (40, 40, 40));
}
