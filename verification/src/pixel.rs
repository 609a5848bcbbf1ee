use vstd::prelude::*;
use vstd::std_specs::ops::MulSpec;
use std::ops::Mul;
use crate::color::Color;
use crate::order::{at_most, obeys_order};

verus! {

impl<T: PartialOrd + Copy + Mul<T, Output = T>> Color<T> {
    /// The color as it stands before it is cut down to 8 bits: each channel
    /// limited to the range from `low` to `high`, then scaled by `scale`.
    pub open spec fn pixel_levels(self, low: T, high: T, scale: T) -> Color<T> {
        self.clamp_spec(low, high).mul_spec(scale)
    }

    /// Whether a color can be turned into a pixel: the bounds are in order
    /// and the limited channels can be scaled.
    pub open spec fn to_rgb_req(self, low: T, high: T, scale: T) -> bool {
        &&& obeys_order::<T>()
        &&& T::obeys_mul_spec()
        &&& at_most(low, high)
        &&& self.clamp_spec(low, high).mul_req(scale)
    }

    /// Turns a color into an 8-bit pixel. Each channel is first limited to
    /// the range from `low` to `high`, so that a channel out of range cannot
    /// wrap; then it is scaled by `scale` and cut down to 8 bits by
    /// `quantize`.
    pub fn to_rgb<F: Fn(T) -> u8>(self, low: T, high: T, scale: T, quantize: F) -> (rgb: (u8, u8, u8))
        requires
            self.to_rgb_req(low, high, scale),
            call_requires(quantize, (self.pixel_levels(low, high, scale).r,)),
            call_requires(quantize, (self.pixel_levels(low, high, scale).g,)),
            call_requires(quantize, (self.pixel_levels(low, high, scale).b,)),
        ensures
            call_ensures(quantize, (self.pixel_levels(low, high, scale).r,), rgb.0),
            call_ensures(quantize, (self.pixel_levels(low, high, scale).g,), rgb.1),
            call_ensures(quantize, (self.pixel_levels(low, high, scale).b,), rgb.2),
    {
        let c = self.clamp(low, high) * scale;
        (quantize(c.r), quantize(c.g), quantize(c.b))
    }
}

} // verus!
