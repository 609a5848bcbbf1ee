use vstd::prelude::*;
use crate::complex::Complex;

verus! {

/// Whether `r` is the square root of `n` rounded down.
pub open spec fn is_floor_sqrt(n: int, r: int) -> bool {
    0 <= r && r * r <= n < (r + 1) * (r + 1)
}

/// A number has at most one rounded-down square root.
pub proof fn lemma_floor_sqrt_unique(n: int, r: int, s: int)
    requires
        is_floor_sqrt(n, r),
        is_floor_sqrt(n, s),
    ensures
        r == s,
{
    if r < s {
        assert((r + 1) * (r + 1) <= s * s) by (nonlinear_arith)
            requires
                0 <= r + 1 <= s,
        ;
    }
    if s < r {
        assert((s + 1) * (s + 1) <= r * r) by (nonlinear_arith)
            requires
                0 <= s + 1 <= r,
        ;
    }
}

/// Computes the square root of `n` rounded down, by bisection.
pub fn isqrt(n: u128) -> (r: u64)
    ensures
        is_floor_sqrt(n as int, r as int),
{
    let mut lo: u128 = 0;
    let mut hi: u128 = 0x1_0000_0000_0000_0000;
    assert(hi * hi > n) by (nonlinear_arith)
        requires
            hi == 0x1_0000_0000_0000_0000,
            n <= u128::MAX,
    ;
    while hi - lo > 1
        invariant
            lo < hi <= 0x1_0000_0000_0000_0000,
            lo * lo <= n < hi * hi,
        decreases hi - lo,
    {
        let mid: u128 = lo + (hi - lo) / 2;
        assert(mid * mid <= 0xffff_ffff_ffff_ffff * 0xffff_ffff_ffff_ffff) by (nonlinear_arith)
            requires
                0 <= mid <= 0xffff_ffff_ffff_ffff,
        ;
        if mid * mid <= n {
            lo = mid;
        } else {
            hi = mid;
        }
    }
    lo as u64
}

/// Element types that can take the length of the hypotenuse of a right
/// triangle from the lengths of its two legs.
pub trait Hypot: Sized {
    /// Whether the hypotenuse of legs `self` and `rhs` can be represented.
    spec fn hypot_req(self, rhs: Self) -> bool;

    /// Whether `h` is the hypotenuse of legs `self` and `rhs`.
    spec fn is_hypot(self, rhs: Self, h: Self) -> bool;

    fn hypotenuse(self, rhs: Self) -> (h: Self)
        requires
            self.hypot_req(rhs),
        ensures
            self.is_hypot(rhs, h),
    ;
}

impl Hypot for i32 {
    /// The rounded-down hypotenuse fits in an `i32`.
    open spec fn hypot_req(self, rhs: i32) -> bool {
        self * self + rhs * rhs < 0x8000_0000 * 0x8000_0000
    }

    /// `h` is the square root of `self² + rhs²`, rounded down.
    open spec fn is_hypot(self, rhs: i32, h: i32) -> bool {
        is_floor_sqrt(self * self + rhs * rhs, h as int)
    }

    fn hypotenuse(self, rhs: i32) -> (h: i32) {
        let a: i64 = self as i64;
        let b: i64 = rhs as i64;
        assert(0 <= a * a <= 0x8000_0000 * 0x8000_0000) by (nonlinear_arith)
            requires
                -0x8000_0000 <= a <= 0x8000_0000,
        ;
        assert(0 <= b * b <= 0x8000_0000 * 0x8000_0000) by (nonlinear_arith)
            requires
                -0x8000_0000 <= b <= 0x8000_0000,
        ;
        let n: i64 = a * a + b * b;
        let r: u64 = isqrt(n as u128);
        assert(r < 0x8000_0000) by (nonlinear_arith)
            requires
                0 <= r,
                r * r <= n,
                n < 0x8000_0000 * 0x8000_0000,
        ;
        r as i32
    }
}

impl Hypot for i64 {
    /// The rounded-down hypotenuse fits in an `i64`.
    open spec fn hypot_req(self, rhs: i64) -> bool {
        self * self + rhs * rhs < 0x8000_0000_0000_0000 * 0x8000_0000_0000_0000
    }

    /// `h` is the square root of `self² + rhs²`, rounded down.
    open spec fn is_hypot(self, rhs: i64, h: i64) -> bool {
        is_floor_sqrt(self * self + rhs * rhs, h as int)
    }

    fn hypotenuse(self, rhs: i64) -> (h: i64) {
        let a: i128 = self as i128;
        let b: i128 = rhs as i128;
        assert(0 <= a * a <= 0x8000_0000_0000_0000 * 0x8000_0000_0000_0000) by (nonlinear_arith)
            requires
                -0x8000_0000_0000_0000 <= a <= 0x8000_0000_0000_0000,
        ;
        assert(0 <= b * b <= 0x8000_0000_0000_0000 * 0x8000_0000_0000_0000) by (nonlinear_arith)
            requires
                -0x8000_0000_0000_0000 <= b <= 0x8000_0000_0000_0000,
        ;
        let n: i128 = a * a + b * b;
        let r: u64 = isqrt(n as u128);
        assert(r < 0x8000_0000_0000_0000) by (nonlinear_arith)
            requires
                0 <= r,
                r * r <= n,
                n < 0x8000_0000_0000_0000 * 0x8000_0000_0000_0000,
        ;
        r as i64
    }
}

impl<T: Hypot> Complex<T> {
    /// Computes the absolute value (magnitude) of a complex number: the
    /// hypotenuse over its real and imaginary parts.
    #[inline]
    pub fn abs(self) -> (magnitude: T)
        requires
            self.re.hypot_req(self.im),
        ensures
            self.re.is_hypot(self.im, magnitude),
    {
        self.re.hypotenuse(self.im)
    }
}

} // verus!
