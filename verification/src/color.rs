use vstd::prelude::*;
use vstd::std_specs::ops::{AddSpec, AddSpecImpl, MulSpec, MulSpecImpl};
use std::ops::{Add, Mul};
use crate::order::{at_most, clamp, clamp_spec, obeys_order, within};

verus! {

/// A color as a triple of red, green and blue channels. The channels are
/// not limited to a range until the color is turned into a pixel.
#[derive(Debug, Clone, Copy)]
pub struct Color<T> {
    pub r: T,
    pub g: T,
    pub b: T,
}

impl<T> Color<T> {
    /// Creates a color from its three channels.
    #[inline]
    pub fn new(r: T, g: T, b: T) -> (c: Color<T>)
        ensures
            c == (Color { r, g, b }),
    {
        Color { r, g, b }
    }

    /// Takes the cosine of each channel, red first. The element type's
    /// cosine is handed in as `cosine`.
    #[inline]
    pub fn cos<F: Fn(T) -> T>(self, cosine: F) -> (c: Color<T>)
        requires
            call_requires(cosine, (self.r,)),
            call_requires(cosine, (self.g,)),
            call_requires(cosine, (self.b,)),
        ensures
            waves_of(cosine, self, c),
    {
        Color { r: cosine(self.r), g: cosine(self.g), b: cosine(self.b) }
    }
}

/// Whether `wave` holds, channel by channel, what `cosine` returns for the
/// channels of `angle`.
pub open spec fn waves_of<T, F: Fn(T) -> T>(cosine: F, angle: Color<T>, wave: Color<T>) -> bool {
    &&& call_ensures(cosine, (angle.r,), wave.r)
    &&& call_ensures(cosine, (angle.g,), wave.g)
    &&& call_ensures(cosine, (angle.b,), wave.b)
}

impl<T: PartialOrd + Copy> Color<T> {
    /// Creates the gray of luminance `l`: all three channels equal `l`. The
    /// luminance must lie between `low` and `high`, which a caller sees to by
    /// clamping its weights first. A luminance that compares with neither
    /// bound, as NaN does, is left out.
    #[inline]
    #[allow(unused_variables)]
    pub fn grayscale(l: T, low: T, high: T) -> (c: Color<T>)
        requires
            within(l, low, high),
        ensures
            c == (Color { r: l, g: l, b: l }),
    {
        Color { r: l, g: l, b: l }
    }
}

impl<T: PartialOrd + Copy> Color<T> {
    /// The color with each channel limited to the range from `low` to
    /// `high`.
    pub open spec fn clamp_spec(self, low: T, high: T) -> Color<T> {
        Color {
            r: clamp_spec(self.r, low, high),
            g: clamp_spec(self.g, low, high),
            b: clamp_spec(self.b, low, high),
        }
    }

    /// Limits each channel to the range from `low` to `high`.
    #[inline]
    pub fn clamp(self, low: T, high: T) -> (c: Color<T>)
        requires
            obeys_order::<T>(),
            at_most(low, high),
        ensures
            c == self.clamp_spec(low, high),
    {
        Color { r: clamp(self.r, low, high), g: clamp(self.g, low, high), b: clamp(self.b, low, high) }
    }
}

impl<T: Add<T, Output = T>> AddSpecImpl for Color<T> {
    open spec fn obeys_add_spec() -> bool {
        T::obeys_add_spec()
    }

    open spec fn add_req(self, rhs: Color<T>) -> bool {
        self.r.add_req(rhs.r) && self.g.add_req(rhs.g) && self.b.add_req(rhs.b)
    }

    open spec fn add_spec(self, rhs: Color<T>) -> Color<T> {
        Color { r: self.r.add_spec(rhs.r), g: self.g.add_spec(rhs.g), b: self.b.add_spec(rhs.b) }
    }
}

impl<T: Add<T, Output = T>> Add for Color<T> {
    type Output = Color<T>;

    /// Adds two colors channel by channel.
    #[inline]
    fn add(self, rhs: Color<T>) -> (sum: Color<T>)
        ensures
            T::obeys_add_spec() ==> sum == (Color {
                r: self.r.add_spec(rhs.r),
                g: self.g.add_spec(rhs.g),
                b: self.b.add_spec(rhs.b),
            }),
    {
        Color { r: self.r + rhs.r, g: self.g + rhs.g, b: self.b + rhs.b }
    }
}

impl<T: Mul<T, Output = T>> MulSpecImpl for Color<T> {
    open spec fn obeys_mul_spec() -> bool {
        T::obeys_mul_spec()
    }

    open spec fn mul_req(self, rhs: Color<T>) -> bool {
        self.r.mul_req(rhs.r) && self.g.mul_req(rhs.g) && self.b.mul_req(rhs.b)
    }

    open spec fn mul_spec(self, rhs: Color<T>) -> Color<T> {
        Color { r: self.r.mul_spec(rhs.r), g: self.g.mul_spec(rhs.g), b: self.b.mul_spec(rhs.b) }
    }
}

impl<T: Mul<T, Output = T>> Mul for Color<T> {
    type Output = Color<T>;

    /// Multiplies two colors channel by channel.
    #[inline]
    fn mul(self, rhs: Color<T>) -> (product: Color<T>)
        ensures
            T::obeys_mul_spec() ==> product == (Color {
                r: self.r.mul_spec(rhs.r),
                g: self.g.mul_spec(rhs.g),
                b: self.b.mul_spec(rhs.b),
            }),
    {
        Color { r: self.r * rhs.r, g: self.g * rhs.g, b: self.b * rhs.b }
    }
}

impl<T: Copy + Mul<T, Output = T>> MulSpecImpl<T> for Color<T> {
    open spec fn obeys_mul_spec() -> bool {
        T::obeys_mul_spec()
    }

    open spec fn mul_req(self, rhs: T) -> bool {
        self.r.mul_req(rhs) && self.g.mul_req(rhs) && self.b.mul_req(rhs)
    }

    open spec fn mul_spec(self, rhs: T) -> Color<T> {
        Color { r: self.r.mul_spec(rhs), g: self.g.mul_spec(rhs), b: self.b.mul_spec(rhs) }
    }
}

impl<T: Copy + Mul<T, Output = T>> Mul<T> for Color<T> {
    type Output = Color<T>;

    /// Scales every channel by the same factor.
    #[inline]
    fn mul(self, rhs: T) -> (scaled: Color<T>)
        ensures
            T::obeys_mul_spec() ==> scaled == (Color {
                r: self.r.mul_spec(rhs),
                g: self.g.mul_spec(rhs),
                b: self.b.mul_spec(rhs),
            }),
    {
        Color { r: self.r * rhs, g: self.g * rhs, b: self.b * rhs }
    }
}

impl MulSpecImpl<Color<i64>> for i64 {
    open spec fn obeys_mul_spec() -> bool {
        true
    }

    open spec fn mul_req(self, rhs: Color<i64>) -> bool {
        &&& i64::MIN <= rhs.r * self <= i64::MAX
        &&& i64::MIN <= rhs.g * self <= i64::MAX
        &&& i64::MIN <= rhs.b * self <= i64::MAX
    }

    open spec fn mul_spec(self, rhs: Color<i64>) -> Color<i64> {
        Color { r: (rhs.r * self) as i64, g: (rhs.g * self) as i64, b: (rhs.b * self) as i64 }
    }
}

impl Mul<Color<i64>> for i64 {
    type Output = Color<i64>;

    /// Scales every channel of `rhs` by the factor on the left.
    #[inline]
    fn mul(self, rhs: Color<i64>) -> (scaled: Color<i64>)
        ensures
            scaled == (Color { r: (rhs.r * self) as i64, g: (rhs.g * self) as i64, b: (rhs.b * self) as i64 }),
    {
        Color { r: rhs.r * self, g: rhs.g * self, b: rhs.b * self }
    }
}

} // verus!
