use vstd::prelude::*;
use vstd::std_specs::convert::FromSpecImpl;
use crate::point::Point;

verus! {

/// A complex number with real part `re` and imaginary part `im`.
#[derive(Clone, Copy, Debug)]
pub struct Complex<T> {
    pub re: T,
    pub im: T,
}

impl<T> Complex<T> {
    /// Creates a complex number from its real and imaginary parts.
    #[inline]
    pub fn new(re: T, im: T) -> (z: Complex<T>)
        ensures
            z == (Complex { re, im }),
    {
        Complex { re, im }
    }

    /// Applies `f` to the real part and then to the imaginary part.
    #[inline]
    pub fn map<F: Fn(T) -> U, U>(self, f: F) -> (z: Complex<U>)
        requires
            call_requires(f, (self.re,)),
            call_requires(f, (self.im,)),
        ensures
            call_ensures(f, (self.re,), z.re),
            call_ensures(f, (self.im,), z.im),
    {
        Complex::<U> { re: f(self.re), im: f(self.im) }
    }

    /// Pairs up the parts of two complex numbers.
    #[inline]
    pub fn zip<U>(self, rhs: Complex<U>) -> (z: Complex<(T, U)>)
        ensures
            z == (Complex { re: (self.re, rhs.re), im: (self.im, rhs.im) }),
    {
        Complex::<(T, U)> { re: (self.re, rhs.re), im: (self.im, rhs.im) }
    }
}

impl<T: Default> Default for Complex<T> {
    /// The complex number whose two parts are the element type's default value.
    fn default() -> (z: Complex<T>)
        ensures
            call_ensures(T::default, (), z.re),
            call_ensures(T::default, (), z.im),
    {
        Complex { re: T::default(), im: T::default() }
    }
}

impl<T> FromSpecImpl<Point<T>> for Complex<T> {
    open spec fn obeys_from_spec() -> bool {
        true
    }

    open spec fn from_spec(value: Point<T>) -> Complex<T> {
        Complex { re: value.x, im: value.y }
    }
}

impl<T> From<Point<T>> for Complex<T> {
    /// Reads a point as a complex number: x becomes the real part and y the
    /// imaginary part.
    #[inline]
    fn from(value: Point<T>) -> (z: Complex<T>)
        ensures
            z == (Complex { re: value.x, im: value.y }),
    {
        Complex { re: value.x, im: value.y }
    }
}

impl<T> FromSpecImpl<(T, T)> for Complex<T> {
    open spec fn obeys_from_spec() -> bool {
        true
    }

    open spec fn from_spec(value: (T, T)) -> Complex<T> {
        Complex { re: value.0, im: value.1 }
    }
}

impl<T> From<(T, T)> for Complex<T> {
    /// Reads a pair as a complex number, real part first.
    fn from(value: (T, T)) -> (z: Complex<T>)
        ensures
            z == (Complex { re: value.0, im: value.1 }),
    {
        Complex::new(value.0, value.1)
    }
}

impl<T> FromSpecImpl<Complex<T>> for (T, T) {
    open spec fn obeys_from_spec() -> bool {
        true
    }

    open spec fn from_spec(value: Complex<T>) -> (T, T) {
        (value.re, value.im)
    }
}

impl<T> From<Complex<T>> for (T, T) {
    /// Splits a complex number into the pair of its parts, real part first.
    fn from(value: Complex<T>) -> (pair: (T, T))
        ensures
            pair == (value.re, value.im),
    {
        (value.re, value.im)
    }
}

} // verus!
