use mandelbrot::complex::Complex;
use mandelbrot::point::Point;

#[test]
fn product_of_gaussian_integers() {
    let a = Complex::new(1i64, 2);
    let b = Complex::new(3i64, -4);
    let p = a * b;
    assert_eq!((p.re, p.im), (11, 2));
}

#[test]
fn product_commutes() {
    let a = Complex::new(7i64, -3);
    let b = Complex::new(-2i64, 5);
    let (p, q) = (a * b, b * a);
    assert_eq!((p.re, p.im), (q.re, q.im));
    let x = Complex::new(0.3f32, -1.7);
    let y = Complex::new(2.5f32, 0.125);
    let (p, q) = (x * y, y * x);
    assert_eq!((p.re, p.im), (q.re, q.im));
}

#[test]
fn sum_commutes_and_associates() {
    let a = Complex::new(7i64, -3);
    let b = Complex::new(-2i64, 5);
    let c = Complex::new(11i64, 13);
    let (l, r) = (a + b, b + a);
    assert_eq!((l.re, l.im), (r.re, r.im));
    let (l, r) = ((a + b) + c, a + (b + c));
    assert_eq!((l.re, l.im), (16, 15));
    assert_eq!((r.re, r.im), (16, 15));
}

#[test]
fn difference_is_taken_part_by_part() {
    let d = Complex::new(7i64, -3) - Complex::new(-2i64, 5);
    assert_eq!((d.re, d.im), (9, -8));
}

#[test]
fn quotient_of_gaussian_integers() {
    let q = Complex::new(6i64, 8) / Complex::new(0i64, 2);
    assert_eq!((q.re, q.im), (4, -3));
}

#[test]
fn quotient_undoes_product_exactly_on_integers() {
    let a = Complex::new(-9i64, 4);
    let b = Complex::new(3i64, -7);
    let q = (a * b) / b;
    assert_eq!((q.re, q.im), (a.re, a.im));
}

#[test]
fn quotient_undoes_product_on_floats() {
    let a = Complex::new(1.5f32, -2.25);
    let b = Complex::new(0.5f32, 4.0);
    let q = (a * b) / b;
    assert!((q.re - a.re).abs() < 1e-5);
    assert!((q.im - a.im).abs() < 1e-5);
}

#[test]
fn division_by_zero_on_floats_is_not_finite() {
    let q = Complex::new(1.0f32, 1.0) / Complex::new(0.0f32, 0.0);
    assert!(!q.re.is_finite());
    assert!(!q.im.is_finite());
}

#[test]
fn scalar_operators_act_on_both_parts() {
    let z = Complex::new(0.25f32, 0.75);
    let c = z * 4.0 - 2.0;
    assert_eq!((c.re, c.im), (-1.0, 1.0));
    let w = (Complex::new(6i64, -9) + 3) / 3;
    assert_eq!((w.re, w.im), (3, -2));
}

#[test]
fn squared_magnitude() {
    assert_eq!(Complex::new(3i64, -4).norm_sq(), 25);
    assert_eq!(Complex::new(-2.0f32, -2.0).norm_sq(), 8.0);
}

#[test]
fn point_becomes_complex() {
    let z: Complex<u32> = Complex::from(Point::new(3u32, 9u32));
    assert_eq!((z.re, z.im), (3, 9));
}

#[test]
fn pair_becomes_complex_and_back() {
    let z = Complex::from((1.5f64, -2.5f64));
    assert_eq!((z.re, z.im), (1.5, -2.5));
    let pair: (f64, f64) = z.into();
    assert_eq!(pair, (1.5, -2.5));
}

#[test]
fn map_and_zip() {
    let z = Complex::new(2i32, -3).map(|v| v * 10);
    assert_eq!((z.re, z.im), (20, -30));
    let p = Point::new(1u8, 2u8).map(|v| v as u16 + 256);
    assert_eq!((p.x, p.y), (257, 258));
    let pairs = Complex::new(1u8, 2u8).zip(Complex::new('a', 'b'));
    assert_eq!(pairs.re, (1, 'a'));
    assert_eq!(pairs.im, (2, 'b'));
}

#[test]
fn defaults_are_zero() {
    let z: Complex<i32> = Complex::default();
    assert_eq!((z.re, z.im), (0, 0));
    let p: Point<f32> = Point::default();
    assert_eq!((p.x, p.y), (0.0, 0.0));
}
