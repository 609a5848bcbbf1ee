use vstd::prelude::*;
use vstd::std_specs::ops::{AddSpec, AddSpecImpl, DivSpec, DivSpecImpl, MulSpec, MulSpecImpl, SubSpec, SubSpecImpl};
use std::ops::{Add, Div, Mul, Sub};
use crate::complex::Complex;

verus! {

impl<T: Clone + Copy + Add<T, Output = T>> AddSpecImpl<T> for Complex<T> {
    open spec fn obeys_add_spec() -> bool {
        T::obeys_add_spec()
    }

    open spec fn add_req(self, rhs: T) -> bool {
        self.re.add_req(rhs) && self.im.add_req(rhs)
    }

    open spec fn add_spec(self, rhs: T) -> Complex<T> {
        Complex { re: self.re.add_spec(rhs), im: self.im.add_spec(rhs) }
    }
}

impl<T: Clone + Copy + Add<T, Output = T>> Add<T> for Complex<T> {
    type Output = Complex<T>;

    /// Adds a real number to both the real and the imaginary part.
    #[inline]
    fn add(self, rhs: T) -> (shifted: Complex<T>)
        ensures
            T::obeys_add_spec() ==> shifted == (Complex {
                re: self.re.add_spec(rhs),
                im: self.im.add_spec(rhs),
            }),
    {
        Complex { re: self.re + rhs, im: self.im + rhs }
    }
}

impl<T: Clone + Copy + Sub<T, Output = T>> SubSpecImpl<T> for Complex<T> {
    open spec fn obeys_sub_spec() -> bool {
        T::obeys_sub_spec()
    }

    open spec fn sub_req(self, rhs: T) -> bool {
        self.re.sub_req(rhs) && self.im.sub_req(rhs)
    }

    open spec fn sub_spec(self, rhs: T) -> Complex<T> {
        Complex { re: self.re.sub_spec(rhs), im: self.im.sub_spec(rhs) }
    }
}

impl<T: Clone + Copy + Sub<T, Output = T>> Sub<T> for Complex<T> {
    type Output = Complex<T>;

    /// Subtracts a real number from both the real and the imaginary part.
    #[inline]
    fn sub(self, rhs: T) -> (shifted: Complex<T>)
        ensures
            T::obeys_sub_spec() ==> shifted == (Complex {
                re: self.re.sub_spec(rhs),
                im: self.im.sub_spec(rhs),
            }),
    {
        Complex { re: self.re - rhs, im: self.im - rhs }
    }
}

impl<T: Clone + Copy + Mul<T, Output = T>> MulSpecImpl<T> for Complex<T> {
    open spec fn obeys_mul_spec() -> bool {
        T::obeys_mul_spec()
    }

    open spec fn mul_req(self, rhs: T) -> bool {
        self.re.mul_req(rhs) && self.im.mul_req(rhs)
    }

    open spec fn mul_spec(self, rhs: T) -> Complex<T> {
        Complex { re: self.re.mul_spec(rhs), im: self.im.mul_spec(rhs) }
    }
}

impl<T: Clone + Copy + Mul<T, Output = T>> Mul<T> for Complex<T> {
    type Output = Complex<T>;

    /// Multiplies both parts by a real number, which scales the complex
    /// number.
    #[inline]
    fn mul(self, rhs: T) -> (scaled: Complex<T>)
        ensures
            T::obeys_mul_spec() ==> scaled == (Complex {
                re: self.re.mul_spec(rhs),
                im: self.im.mul_spec(rhs),
            }),
    {
        Complex { re: self.re * rhs, im: self.im * rhs }
    }
}

impl<T: Clone + Copy + Div<T, Output = T>> DivSpecImpl<T> for Complex<T> {
    open spec fn obeys_div_spec() -> bool {
        T::obeys_div_spec()
    }

    open spec fn div_req(self, rhs: T) -> bool {
        self.re.div_req(rhs) && self.im.div_req(rhs)
    }

    open spec fn div_spec(self, rhs: T) -> Complex<T> {
        Complex { re: self.re.div_spec(rhs), im: self.im.div_spec(rhs) }
    }
}

impl<T: Clone + Copy + Div<T, Output = T>> Div<T> for Complex<T> {
    type Output = Complex<T>;

    /// Divides both parts by a real number, which scales the complex number.
    #[inline]
    fn div(self, rhs: T) -> (scaled: Complex<T>)
        ensures
            T::obeys_div_spec() ==> scaled == (Complex {
                re: self.re.div_spec(rhs),
                im: self.im.div_spec(rhs),
            }),
    {
        Complex { re: self.re / rhs, im: self.im / rhs }
    }
}

} // verus!
