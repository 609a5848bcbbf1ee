use vstd::prelude::*;
use vstd::std_specs::ops::{AddSpec, MulSpec};
use std::ops::{Add, Mul};
use crate::color::{waves_of, Color};

verus! {

/// The four constant triples of a cosine palette: the color of weight `t`
/// is `offset + amplitude * cos(tau * (frequency * t + phase))`, channel by
/// channel.
#[derive(Debug, Clone, Copy)]
pub struct Palette<T> {
    pub offset: Color<T>,
    pub amplitude: Color<T>,
    pub frequency: Color<T>,
    pub phase: Color<T>,
}

impl<T: Copy + Add<T, Output = T> + Mul<T, Output = T>> Palette<T> {
    /// The angles whose cosines the palette takes at the wrapped weight
    /// `t`: `(frequency * t + phase) * tau`, where `tau` is a full turn.
    pub open spec fn angle_spec(self, t: T, tau: T) -> Color<T> {
        self.frequency.mul_spec(t).add_spec(self.phase).mul_spec(tau)
    }

    /// Whether the angles at the wrapped weight `t` can be computed.
    pub open spec fn angle_req(self, t: T, tau: T) -> bool {
        &&& self.frequency.mul_req(t)
        &&& self.frequency.mul_spec(t).add_req(self.phase)
        &&& self.frequency.mul_spec(t).add_spec(self.phase).mul_req(tau)
    }

    /// The color that the palette makes of the cosines `wave`:
    /// `offset + amplitude * wave`.
    pub open spec fn blend_spec(self, wave: Color<T>) -> Color<T> {
        self.offset.add_spec(self.amplitude.mul_spec(wave))
    }

    /// Whether the cosines `wave` can be blended into a color.
    pub open spec fn blend_req(self, wave: Color<T>) -> bool {
        &&& self.amplitude.mul_req(wave)
        &&& self.offset.add_req(self.amplitude.mul_spec(wave))
    }

    /// Whether `c` is the palette's color for weight `t` shifted by
    /// `shift`: the shifted weight is wrapped by `wrap`, the angles at the
    /// wrapped weight go through `cosine`, and the cosines are blended.
    pub open spec fn is_color<W: Fn(T) -> T, C: Fn(T) -> T>(
        self,
        t: T,
        shift: T,
        tau: T,
        wrap: W,
        cosine: C,
        c: Color<T>,
    ) -> bool {
        exists|wrapped: T, wave: Color<T>|
            {
                &&& call_ensures(wrap, (t.add_spec(shift),), wrapped)
                &&& waves_of(cosine, self.angle_spec(wrapped, tau), wave)
                &&& c == self.blend_spec(wave)
            }
    }

    /// Whether the palette's color for weight `t` shifted by `shift` can be
    /// computed: each step accepts what the step before it gives.
    pub open spec fn color_req<W: Fn(T) -> T, C: Fn(T) -> T>(
        self,
        t: T,
        shift: T,
        tau: T,
        wrap: W,
        cosine: C,
    ) -> bool {
        &&& T::obeys_add_spec()
        &&& T::obeys_mul_spec()
        &&& t.add_req(shift)
        &&& call_requires(wrap, (t.add_spec(shift),))
        &&& forall|wrapped: T| #[trigger]
            call_ensures(wrap, (t.add_spec(shift),), wrapped) ==> {
                &&& self.angle_req(wrapped, tau)
                &&& call_requires(cosine, (self.angle_spec(wrapped, tau).r,))
                &&& call_requires(cosine, (self.angle_spec(wrapped, tau).g,))
                &&& call_requires(cosine, (self.angle_spec(wrapped, tau).b,))
                &&& forall|wave: Color<T>| #[trigger]
                    waves_of(cosine, self.angle_spec(wrapped, tau), wave) ==> self.blend_req(wave)
            }
    }

    /// The palette's color for weight `t` and phase offset `shift`. The
    /// shifted weight `t + shift` is wrapped into one period by `wrap`;
    /// the angles `(frequency * t' + phase) * tau` at the wrapped weight
    /// `t'` go through `cosine`; the result is
    /// `offset + amplitude * cosines`.
    pub fn color<W: Fn(T) -> T, C: Fn(T) -> T>(
        &self,
        t: T,
        shift: T,
        tau: T,
        wrap: W,
        cosine: C,
    ) -> (c: Color<T>)
        requires
            self.color_req(t, shift, tau, wrap, cosine),
        ensures
            self.is_color(t, shift, tau, wrap, cosine, c),
    {
        let wrapped = wrap(t + shift);
        let angle = (self.frequency * wrapped + self.phase) * tau;
        let wave = angle.cos(cosine);
        let c = self.offset + self.amplitude * wave;
        assert(waves_of(cosine, self.angle_spec(wrapped, tau), wave));
        c
    }
}

/// The palette repeats wherever the wrapping does: if shifting the weight
/// by `period` leaves what `wrap` returns unchanged, it leaves the colors
/// unchanged too.
pub proof fn lemma_palette_periodic<
    T: Copy + Add<T, Output = T> + Mul<T, Output = T>,
    W: Fn(T) -> T,
    C: Fn(T) -> T,
>(palette: Palette<T>, t: T, period: T, shift: T, tau: T, wrap: W, cosine: C, c: Color<T>)
    requires
        forall|wrapped: T|
            call_ensures(wrap, (t.add_spec(shift),), wrapped) <==> call_ensures(
                wrap,
                (t.add_spec(period).add_spec(shift),),
                wrapped,
            ),
    ensures
        palette.is_color(t, shift, tau, wrap, cosine, c) <==> palette.is_color(
            t.add_spec(period),
            shift,
            tau,
            wrap,
            cosine,
            c,
        ),
{
    if palette.is_color(t, shift, tau, wrap, cosine, c) {
        let (wrapped, wave) = choose|wrapped: T, wave: Color<T>|
            {
                &&& call_ensures(wrap, (t.add_spec(shift),), wrapped)
                &&& waves_of(cosine, palette.angle_spec(wrapped, tau), wave)
                &&& c == palette.blend_spec(wave)
            };
        assert(call_ensures(wrap, (t.add_spec(period).add_spec(shift),), wrapped));
    }
    if palette.is_color(t.add_spec(period), shift, tau, wrap, cosine, c) {
        let (wrapped, wave) = choose|wrapped: T, wave: Color<T>|
            {
                &&& call_ensures(wrap, (t.add_spec(period).add_spec(shift),), wrapped)
                &&& waves_of(cosine, palette.angle_spec(wrapped, tau), wave)
                &&& c == palette.blend_spec(wave)
            };
        assert(call_ensures(wrap, (t.add_spec(shift),), wrapped));
    }
}

} // verus!
