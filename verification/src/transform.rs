use vstd::prelude::*;
use vstd::std_specs::ops::{AddSpec, DivSpec, MulSpec, SubSpec};
use std::ops::{Add, Div, Mul, Sub};
use crate::complex::Complex;
use crate::order::{exceeds, falls_below, mirrored_order};
use crate::params::{Numerics, RenderParams};
use crate::point::Point;

verus! {

/// A zoomed and panned window onto the complex plane: plane points are
/// scaled by `scale`, then moved by `center`.
#[derive(Debug, Clone, Copy)]
pub struct Window<T> {
    pub scale: T,
    pub center: Complex<T>,
}

/// Whether `uv` is what pixel `p` of an image `n` pixels wide becomes in the
/// unit square: each coordinate, lifted into the element type by `lift`,
/// over the lifted width.
pub open spec fn is_uv<T: Div<T, Output = T>, F: Fn(u32) -> T>(
    lift: F,
    p: Point<u32>,
    n: u32,
    uv: Point<T>,
) -> bool {
    exists|x: T, y: T, width: T|
        {
            &&& call_ensures(lift, (p.x,), x)
            &&& call_ensures(lift, (p.y,), y)
            &&& call_ensures(lift, (n,), width)
            &&& x.div_req(width)
            &&& y.div_req(width)
            &&& uv == (Point { x: x.div_spec(width), y: y.div_spec(width) })
        }
}

impl Point<u32> {
    /// Converts a point from pixel coordinates to unit coordinates, given
    /// the size `n` of the image in pixels: each coordinate is divided by
    /// `n`, in the element type that `lift` brings them to.
    #[inline]
    pub fn to_uv<T: Copy + Div<T, Output = T>, F: Fn(u32) -> T>(self, n: u32, lift: F) -> (uv: Point<T>)
        requires
            T::obeys_div_spec(),
            call_requires(lift, (n,)),
            call_requires(lift, (self.x,)),
            call_requires(lift, (self.y,)),
            forall|a: T, w: T|
                (call_ensures(lift, (self.x,), a) || call_ensures(lift, (self.y,), a))
                    && call_ensures(lift, (n,), w) ==> a.div_req(w),
        ensures
            is_uv(lift, self, n, uv),
    {
        let width = lift(n);
        let x = lift(self.x);
        let y = lift(self.y);
        Point { x: x / width, y: y / width }
    }
}

/// The plane point of the unit coordinates `uv` in the default window: each
/// coordinate times `four` less `two`, which carries the unit square onto
/// the square from -2 to 2.
pub open spec fn plane_spec<T: Copy + Mul<T, Output = T> + Sub<T, Output = T>>(
    uv: Point<T>,
    four: T,
    two: T,
) -> Complex<T> {
    Complex { re: uv.x.mul_spec(four).sub_spec(two), im: uv.y.mul_spec(four).sub_spec(two) }
}

/// The plane point `c` as seen through `window`, or `c` itself where no
/// window is configured.
pub open spec fn window_spec<T: Copy + Mul<T, Output = T> + Add<T, Output = T>>(
    c: Complex<T>,
    window: Option<Window<T>>,
) -> Complex<T> {
    match window {
        None => c,
        Some(w) => Complex {
            re: c.re.mul_spec(w.scale).add_spec(w.center.re),
            im: c.im.mul_spec(w.scale).add_spec(w.center.im),
        },
    }
}

/// The plane point that the unit coordinates `uv` are sampled at.
pub open spec fn transform_spec<T: Copy + Mul<T, Output = T> + Sub<T, Output = T> + Add<T, Output = T>>(
    uv: Point<T>,
    four: T,
    two: T,
    window: Option<Window<T>>,
) -> Complex<T> {
    window_spec(plane_spec(uv, four, two), window)
}

/// Whether every step of the transform of `uv` is defined.
pub open spec fn transform_req<T: Copy + Mul<T, Output = T> + Sub<T, Output = T> + Add<T, Output = T>>(
    uv: Point<T>,
    four: T,
    two: T,
    window: Option<Window<T>>,
) -> bool {
    let c = plane_spec(uv, four, two);
    &&& T::obeys_mul_spec()
    &&& T::obeys_sub_spec()
    &&& uv.x.mul_req(four)
    &&& uv.y.mul_req(four)
    &&& uv.x.mul_spec(four).sub_req(two)
    &&& uv.y.mul_spec(four).sub_req(two)
    &&& window matches Some(w) ==> {
        &&& c.re.mul_req(w.scale)
        &&& c.im.mul_req(w.scale)
        &&& c.re.mul_spec(w.scale).add_req(w.center.re)
        &&& c.im.mul_spec(w.scale).add_req(w.center.im)
    }
}

/// Maps unit coordinates to the plane point they are sampled at: `uv` read
/// as a complex number, times `four` less `two`, and then, where a window is
/// configured, times its scale plus its center.
pub fn transform<T: Clone + Copy + Mul<T, Output = T> + Sub<T, Output = T> + Add<T, Output = T>>(
    uv: Point<T>,
    four: T,
    two: T,
    window: Option<Window<T>>,
) -> (c: Complex<T>)
    requires
        transform_req(uv, four, two, window),
    ensures
        T::obeys_add_spec() ==> c == transform_spec(uv, four, two, window),
        window is None ==> c == plane_spec(uv, four, two),
{
    let z: Complex<T> = Complex::from(uv);
    let c = z * four - two;
    match window {
        None => c,
        Some(w) => c * w.scale + w.center,
    }
}

/// Whether the plane point of `pixel` can be computed: the pixel lies within
/// the image, its coordinates and the resolution can be lifted and divided,
/// and the transform of the unit coordinates is defined.
pub open spec fn sample_req<
    T: Copy + Div<T, Output = T> + Mul<T, Output = T> + Sub<T, Output = T> + Add<T, Output = T>,
    L: Fn(u32) -> T,
    S,
    N,
    G,
    H,
>(params: RenderParams<T>, pixel: Point<u32>, num: Numerics<T, L, S, N, G, H>) -> bool {
    &&& pixel.x < params.resolution
    &&& pixel.y < params.resolution
    &&& T::obeys_div_spec()
    &&& T::obeys_add_spec()
    &&& call_requires(num.lift, (params.resolution,))
    &&& call_requires(num.lift, (pixel.x,))
    &&& call_requires(num.lift, (pixel.y,))
    &&& forall|a: T, w: T|
        (call_ensures(num.lift, (pixel.x,), a) || call_ensures(num.lift, (pixel.y,), a))
            && call_ensures(num.lift, (params.resolution,), w) ==> a.div_req(w)
    &&& forall|uv: Point<T>| #[trigger]
        is_uv(num.lift, pixel, params.resolution, uv) ==> transform_req(
            uv,
            num.four,
            num.two,
            params.window,
        )
}

/// Whether `c` is the plane point that `pixel` is sampled at: the transform
/// of its unit coordinates through the configured window.
pub open spec fn is_sample<
    T: Copy + Div<T, Output = T> + Mul<T, Output = T> + Sub<T, Output = T> + Add<T, Output = T>,
    L: Fn(u32) -> T,
    S,
    N,
    G,
    H,
>(params: RenderParams<T>, pixel: Point<u32>, num: Numerics<T, L, S, N, G, H>, c: Complex<T>) -> bool {
    exists|uv: Point<T>|
        is_uv(num.lift, pixel, params.resolution, uv) && c == transform_spec(
            uv,
            num.four,
            num.two,
            params.window,
        )
}

impl<T: Clone + Copy + Div<T, Output = T> + Mul<T, Output = T> + Sub<T, Output = T> + Add<T, Output = T>> RenderParams<T> {
    /// The plane point that a pixel of the image is sampled at: its
    /// coordinates over the resolution, carried onto the square from -2 to
    /// 2 and then through the configured window.
    pub fn sample<L: Fn(u32) -> T, S, N, G, H>(
        &self,
        pixel: Point<u32>,
        num: &Numerics<T, L, S, N, G, H>,
    ) -> (c: Complex<T>)
        requires
            sample_req(*self, pixel, *num),
        ensures
            is_sample(*self, pixel, *num, c),
    {
        let width = (num.lift)(self.resolution);
        let x = (num.lift)(pixel.x);
        let y = (num.lift)(pixel.y);
        let uv = Point { x: x / width, y: y / width };
        assert(is_uv(num.lift, pixel, self.resolution, uv));
        transform(uv, num.four, num.two, self.window)
    }
}

/// Whether `f` keeps the order of the element type: a lesser argument gives
/// a lesser result.
pub open spec fn keeps_order<T: PartialOrd>(f: spec_fn(T) -> T) -> bool {
    forall|a: T, b: T| falls_below(a, b) ==> #[trigger] falls_below(f(a), f(b))
}

/// Whether the steps of the transform keep the order of the element type:
/// scaling by `four`, taking off `two`, and what a window adds to them.
pub open spec fn steps_keep_order<T: Copy + Mul<T, Output = T> + Sub<T, Output = T> + Add<T, Output = T> + PartialOrd>(
    four: T,
    two: T,
    window: Option<Window<T>>,
) -> bool {
    &&& keeps_order(|v: T| v.mul_spec(four))
    &&& keeps_order(|v: T| v.sub_spec(two))
    &&& window matches Some(w) ==> {
        &&& keeps_order(|v: T| v.mul_spec(w.scale))
        &&& keeps_order(|v: T| v.add_spec(w.center.re))
        &&& keeps_order(|v: T| v.add_spec(w.center.im))
    }
}

/// The transform rises with each axis wherever its steps keep the order of
/// the element type: a point further right is sampled at a greater real
/// part, a point further down at a greater imaginary part.
pub proof fn lemma_transform_monotone<T: Copy + Mul<T, Output = T> + Sub<T, Output = T> + Add<T, Output = T> + PartialOrd>(
    p: Point<T>,
    q: Point<T>,
    four: T,
    two: T,
    window: Option<Window<T>>,
)
    requires
        steps_keep_order(four, two, window),
    ensures
        falls_below(p.x, q.x) ==> falls_below(
            transform_spec(p, four, two, window).re,
            transform_spec(q, four, two, window).re,
        ),
        falls_below(p.y, q.y) ==> falls_below(
            transform_spec(p, four, two, window).im,
            transform_spec(q, four, two, window).im,
        ),
{
    let scale4 = |v: T| v.mul_spec(four);
    let less2 = |v: T| v.sub_spec(two);
    if falls_below(p.x, q.x) {
        assert(falls_below(scale4(p.x), scale4(q.x)));
        assert(falls_below(less2(scale4(p.x)), less2(scale4(q.x))));
    }
    if falls_below(p.y, q.y) {
        assert(falls_below(scale4(p.y), scale4(q.y)));
        assert(falls_below(less2(scale4(p.y)), less2(scale4(q.y))));
    }
    if let Some(w) = window {
        let zoom = |v: T| v.mul_spec(w.scale);
        let pan_re = |v: T| v.add_spec(w.center.re);
        let pan_im = |v: T| v.add_spec(w.center.im);
        let cp = plane_spec(p, four, two);
        let cq = plane_spec(q, four, two);
        if falls_below(p.x, q.x) {
            assert(falls_below(zoom(cp.re), zoom(cq.re)));
            assert(falls_below(pan_re(zoom(cp.re)), pan_re(zoom(cq.re))));
        }
        if falls_below(p.y, q.y) {
            assert(falls_below(zoom(cp.im), zoom(cq.im)));
            assert(falls_below(pan_im(zoom(cp.im)), pan_im(zoom(cq.im))));
        }
    }
}

/// The samples of the unit square lie between the samples of its corners
/// wherever the steps of the transform keep the order of the element type:
/// unit coordinates above `zero` are sampled above the sample of `zero`, and
/// unit coordinates below `one` are sampled below the sample of `one`. In
/// the default window those two samples are `zero * four - two` and
/// `one * four - two`; a window scales and moves them with the rest.
pub proof fn lemma_transform_range<T: Copy + Mul<T, Output = T> + Sub<T, Output = T> + Add<T, Output = T> + PartialOrd>(
    uv: Point<T>,
    zero: T,
    one: T,
    four: T,
    two: T,
    window: Option<Window<T>>,
)
    requires
        steps_keep_order(four, two, window),
    ensures
        ({
            let low = transform_spec(Point { x: zero, y: zero }, four, two, window);
            let high = transform_spec(Point { x: one, y: one }, four, two, window);
            let c = transform_spec(uv, four, two, window);
            &&& falls_below(zero, uv.x) ==> falls_below(low.re, c.re)
            &&& falls_below(zero, uv.y) ==> falls_below(low.im, c.im)
            &&& falls_below(uv.x, one) ==> falls_below(c.re, high.re)
            &&& falls_below(uv.y, one) ==> falls_below(c.im, high.im)
            &&& uv.x == zero ==> c.re == low.re
            &&& uv.y == zero ==> c.im == low.im
        }),
{
    lemma_transform_monotone(Point { x: zero, y: zero }, uv, four, two, window);
    lemma_transform_monotone(uv, Point { x: one, y: one }, four, two, window);
}

/// Over `i64`, with the factor four and the offset two, the corners of the
/// unit square are sampled at -2 and 2 on both axes in the default window,
/// and at the center less and plus twice the scale through a window, as
/// long as nothing overflows.
pub proof fn lemma_window_corners_i64(window: Option<Window<i64>>)
    requires
        transform_req(Point { x: 0i64, y: 0i64 }, 4, 2, window),
        transform_req(Point { x: 1i64, y: 1i64 }, 4, 2, window),
    ensures
        ({
            let low = transform_spec(Point { x: 0i64, y: 0i64 }, 4, 2, window);
            let high = transform_spec(Point { x: 1i64, y: 1i64 }, 4, 2, window);
            match window {
                None => low == (Complex { re: -2i64, im: -2i64 }) && high == (Complex {
                    re: 2i64,
                    im: 2i64,
                }),
                Some(w) => {
                    &&& low.re == w.center.re - 2 * w.scale
                    &&& low.im == w.center.im - 2 * w.scale
                    &&& high.re == w.center.re + 2 * w.scale
                    &&& high.im == w.center.im + 2 * w.scale
                },
            }
        }),
{
}

/// Whether lifting coordinates up to the resolution `n` and dividing them
/// by the lifted resolution keeps their order, whatever `lift` returns where
/// it may return more than one value.
pub open spec fn lifting_keeps_order<T: Div<T, Output = T> + PartialOrd, L: Fn(u32) -> T>(
    lift: L,
    n: u32,
) -> bool {
    forall|a: u32, b: u32, la: T, lb: T, wa: T, wb: T|
        #![trigger
            call_ensures(lift, (a,), la),
            call_ensures(lift, (b,), lb),
            call_ensures(lift, (n,), wa),
            call_ensures(lift, (n,), wb)
        ]
        {
            &&& a < b <= n
            &&& call_ensures(lift, (a,), la)
            &&& call_ensures(lift, (b,), lb)
            &&& call_ensures(lift, (n,), wa)
            &&& call_ensures(lift, (n,), wb)
        } ==> falls_below(la.div_spec(wa), lb.div_spec(wb))
}

/// From the pixel grid to the plane, the mapping rises with each axis
/// wherever its steps keep the order of the element type: of two pixels of
/// an image, the one further right is sampled at a greater real part, the
/// one further down at a greater imaginary part. Where the order is
/// mirrored as well, no two distinct pixels are sampled at the same point.
pub proof fn lemma_sample_monotone<
    T: Copy + Div<T, Output = T> + Mul<T, Output = T> + Sub<T, Output = T> + Add<T, Output = T> + PartialOrd,
    L: Fn(u32) -> T,
    S,
    N,
    G,
    H,
>(
    params: RenderParams<T>,
    num: Numerics<T, L, S, N, G, H>,
    p: Point<u32>,
    q: Point<u32>,
    cp: Complex<T>,
    cq: Complex<T>,
)
    requires
        p.x < params.resolution && p.y < params.resolution,
        q.x < params.resolution && q.y < params.resolution,
        is_sample(params, p, num, cp),
        is_sample(params, q, num, cq),
        lifting_keeps_order(num.lift, params.resolution),
        steps_keep_order(num.four, num.two, params.window),
    ensures
        p.x < q.x ==> falls_below(cp.re, cq.re),
        p.y < q.y ==> falls_below(cp.im, cq.im),
        mirrored_order::<T>() && p != q ==> cp != cq,
{
    let n = params.resolution;
    let up = choose|uv: Point<T>|
        is_uv(num.lift, p, n, uv) && cp == transform_spec(uv, num.four, num.two, params.window);
    let uq = choose|uv: Point<T>|
        is_uv(num.lift, q, n, uv) && cq == transform_spec(uv, num.four, num.two, params.window);
    lemma_uv_monotone(num.lift, n, p, q, up, uq);
    lemma_uv_monotone(num.lift, n, q, p, uq, up);
    lemma_transform_monotone(up, uq, num.four, num.two, params.window);
    lemma_transform_monotone(uq, up, num.four, num.two, params.window);
    if mirrored_order::<T>() && p != q {
        assert(falls_below(cp.re, cp.re) <==> exceeds(cp.re, cp.re));
        assert(falls_below(cp.im, cp.im) <==> exceeds(cp.im, cp.im));
    }
}

/// The unit coordinates of a pixel lie in the unit square from its low
/// corner up to, and not including, its high corner, wherever lifting and
/// dividing keep their order: they are not below the unit coordinates
/// `start` of pixel zero, which the first row and column have, and they are
/// below `end`, the lifted resolution over itself.
pub proof fn lemma_uv_in_unit_square<T: Div<T, Output = T> + PartialOrd, L: Fn(u32) -> T>(
    lift: L,
    n: u32,
    p: Point<u32>,
    uv: Point<T>,
    start: Point<T>,
    end: T,
)
    requires
        p.x < n && p.y < n,
        is_uv(lift, p, n, uv),
        is_uv(lift, Point { x: 0u32, y: 0u32 }, n, start),
        exists|w1: T, w2: T|
            call_ensures(lift, (n,), w1) && call_ensures(lift, (n,), w2) && end == w1.div_spec(w2),
        lifting_keeps_order(lift, n),
    ensures
        p.x > 0 ==> falls_below(start.x, uv.x),
        p.y > 0 ==> falls_below(start.y, uv.y),
        falls_below(uv.x, end),
        falls_below(uv.y, end),
{
    lemma_uv_monotone(lift, n, Point { x: 0u32, y: 0u32 }, p, start, uv);
    let (px, py, pw) = choose|x: T, y: T, width: T|
        {
            &&& call_ensures(lift, (p.x,), x)
            &&& call_ensures(lift, (p.y,), y)
            &&& call_ensures(lift, (n,), width)
            &&& x.div_req(width)
            &&& y.div_req(width)
            &&& uv == (Point { x: x.div_spec(width), y: y.div_spec(width) })
        };
    let (w1, w2) = choose|w1: T, w2: T|
        call_ensures(lift, (n,), w1) && call_ensures(lift, (n,), w2) && end == w1.div_spec(w2);
    assert(falls_below(px.div_spec(pw), w1.div_spec(w2)));
    assert(falls_below(py.div_spec(pw), w1.div_spec(w2)));
}

/// Unit coordinates rise with pixel coordinates wherever lifting and
/// dividing keep their order.
proof fn lemma_uv_monotone<T: Div<T, Output = T> + PartialOrd, L: Fn(u32) -> T>(
    lift: L,
    n: u32,
    p: Point<u32>,
    q: Point<u32>,
    up: Point<T>,
    uq: Point<T>,
)
    requires
        p.x < n && p.y < n,
        q.x < n && q.y < n,
        is_uv(lift, p, n, up),
        is_uv(lift, q, n, uq),
        lifting_keeps_order(lift, n),
    ensures
        p.x < q.x ==> falls_below(up.x, uq.x),
        p.y < q.y ==> falls_below(up.y, uq.y),
{
    let (px, py, pw) = choose|x: T, y: T, width: T|
        {
            &&& call_ensures(lift, (p.x,), x)
            &&& call_ensures(lift, (p.y,), y)
            &&& call_ensures(lift, (n,), width)
            &&& x.div_req(width)
            &&& y.div_req(width)
            &&& up == (Point { x: x.div_spec(width), y: y.div_spec(width) })
        };
    let (qx, qy, qw) = choose|x: T, y: T, width: T|
        {
            &&& call_ensures(lift, (q.x,), x)
            &&& call_ensures(lift, (q.y,), y)
            &&& call_ensures(lift, (n,), width)
            &&& x.div_req(width)
            &&& y.div_req(width)
            &&& uq == (Point { x: x.div_spec(width), y: y.div_spec(width) })
        };
}

/// Over `i64`, with a positive factor and a positive window scale, the
/// transform rises strictly with each axis as long as nothing overflows, so
/// no two distinct points are sampled at the same plane point.
pub proof fn lemma_transform_injective_i64(
    p: Point<i64>,
    q: Point<i64>,
    four: i64,
    two: i64,
    window: Option<Window<i64>>,
)
    requires
        four > 0,
        window matches Some(w) ==> w.scale > 0,
        transform_req(p, four, two, window),
        transform_req(q, four, two, window),
    ensures
        p.x < q.x ==> transform_spec(p, four, two, window).re < transform_spec(
            q,
            four,
            two,
            window,
        ).re,
        p.y < q.y ==> transform_spec(p, four, two, window).im < transform_spec(
            q,
            four,
            two,
            window,
        ).im,
        p != q ==> transform_spec(p, four, two, window) != transform_spec(q, four, two, window),
{
    let cp = plane_spec(p, four, two);
    let cq = plane_spec(q, four, two);
    lemma_scaling_rises(p.x as int, q.x as int, four as int);
    lemma_scaling_rises(p.y as int, q.y as int, four as int);
    lemma_scaling_rises(q.x as int, p.x as int, four as int);
    lemma_scaling_rises(q.y as int, p.y as int, four as int);
    if let Some(w) = window {
        lemma_scaling_rises(cp.re as int, cq.re as int, w.scale as int);
        lemma_scaling_rises(cp.im as int, cq.im as int, w.scale as int);
        lemma_scaling_rises(cq.re as int, cp.re as int, w.scale as int);
        lemma_scaling_rises(cq.im as int, cp.im as int, w.scale as int);
    }
}

/// Scaling by a positive factor keeps strict order.
proof fn lemma_scaling_rises(a: int, b: int, k: int)
    requires
        k > 0,
    ensures
        a < b ==> a * k < b * k,
{
    assert(a < b ==> a * k < b * k) by (nonlinear_arith)
        requires
            k > 0,
    ;
}

} // verus!
