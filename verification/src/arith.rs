use vstd::prelude::*;
use vstd::std_specs::ops::{AddSpec, AddSpecImpl, DivSpec, DivSpecImpl, MulSpec, MulSpecImpl, SubSpec, SubSpecImpl};
use std::ops::{Add, Div, Mul, Sub};
use crate::complex::Complex;

verus! {

impl<T: Copy + Mul<T, Output = T> + Add<T, Output = T>> Complex<T> {
    /// The squared magnitude `re * re + im * im`, over the element type's
    /// own product and sum.
    pub open spec fn norm_sq_spec(self) -> T {
        self.re.mul_spec(self.re).add_spec(self.im.mul_spec(self.im))
    }

    /// Whether every step of the squared magnitude is defined.
    pub open spec fn norm_sq_req(self) -> bool {
        &&& T::obeys_mul_spec()
        &&& self.re.mul_req(self.re)
        &&& self.im.mul_req(self.im)
        &&& self.re.mul_spec(self.re).add_req(self.im.mul_spec(self.im))
    }

    /// Computes the squared magnitude, which needs no square root.
    #[inline]
    pub fn norm_sq(self) -> (m: T)
        requires
            self.norm_sq_req(),
        ensures
            T::obeys_add_spec() ==> m == self.norm_sq_spec(),
    {
        self.re * self.re + self.im * self.im
    }
}

impl<T: Add<T, Output = T>> AddSpecImpl for Complex<T> {
    open spec fn obeys_add_spec() -> bool {
        T::obeys_add_spec()
    }

    open spec fn add_req(self, rhs: Complex<T>) -> bool {
        self.re.add_req(rhs.re) && self.im.add_req(rhs.im)
    }

    open spec fn add_spec(self, rhs: Complex<T>) -> Complex<T> {
        Complex { re: self.re.add_spec(rhs.re), im: self.im.add_spec(rhs.im) }
    }
}

impl<T: Add<T, Output = T>> Add for Complex<T> {
    type Output = Complex<T>;

    /// Adds two complex numbers part by part.
    #[inline]
    fn add(self, rhs: Complex<T>) -> (sum: Complex<T>)
        ensures
            T::obeys_add_spec() ==> sum == (Complex {
                re: self.re.add_spec(rhs.re),
                im: self.im.add_spec(rhs.im),
            }),
    {
        Complex { re: self.re + rhs.re, im: self.im + rhs.im }
    }
}

impl<T: Sub<T, Output = T>> SubSpecImpl for Complex<T> {
    open spec fn obeys_sub_spec() -> bool {
        T::obeys_sub_spec()
    }

    open spec fn sub_req(self, rhs: Complex<T>) -> bool {
        self.re.sub_req(rhs.re) && self.im.sub_req(rhs.im)
    }

    open spec fn sub_spec(self, rhs: Complex<T>) -> Complex<T> {
        Complex { re: self.re.sub_spec(rhs.re), im: self.im.sub_spec(rhs.im) }
    }
}

impl<T: Sub<T, Output = T>> Sub for Complex<T> {
    type Output = Complex<T>;

    /// Subtracts one complex number from another part by part.
    #[inline]
    fn sub(self, rhs: Complex<T>) -> (difference: Complex<T>)
        ensures
            T::obeys_sub_spec() ==> difference == (Complex {
                re: self.re.sub_spec(rhs.re),
                im: self.im.sub_spec(rhs.im),
            }),
    {
        Complex { re: self.re - rhs.re, im: self.im - rhs.im }
    }
}

impl<T: Clone + Copy + Mul<T, Output = T> + Add<T, Output = T> + Sub<T, Output = T>> MulSpecImpl for Complex<T> {
    open spec fn obeys_mul_spec() -> bool {
        T::obeys_mul_spec() && T::obeys_add_spec() && T::obeys_sub_spec()
    }

    /// The four products are defined, and so are the difference and the sum
    /// taken of them.
    open spec fn mul_req(self, rhs: Complex<T>) -> bool {
        &&& T::obeys_mul_spec()
        &&& self.re.mul_req(rhs.re)
        &&& self.im.mul_req(rhs.im)
        &&& self.re.mul_req(rhs.im)
        &&& self.im.mul_req(rhs.re)
        &&& self.re.mul_spec(rhs.re).sub_req(self.im.mul_spec(rhs.im))
        &&& self.re.mul_spec(rhs.im).add_req(self.im.mul_spec(rhs.re))
    }

    open spec fn mul_spec(self, rhs: Complex<T>) -> Complex<T> {
        Complex {
            re: self.re.mul_spec(rhs.re).sub_spec(self.im.mul_spec(rhs.im)),
            im: self.re.mul_spec(rhs.im).add_spec(self.im.mul_spec(rhs.re)),
        }
    }
}

impl<T: Clone + Copy + Mul<T, Output = T> + Add<T, Output = T> + Sub<T, Output = T>> Mul for Complex<T> {
    type Output = Complex<T>;

    /// Computes the product of two complex numbers.
    #[inline]
    fn mul(self, rhs: Complex<T>) -> (product: Complex<T>)
        ensures
            T::obeys_add_spec() && T::obeys_sub_spec() ==> product == (Complex {
                re: self.re.mul_spec(rhs.re).sub_spec(self.im.mul_spec(rhs.im)),
                im: self.re.mul_spec(rhs.im).add_spec(self.im.mul_spec(rhs.re)),
            }),
    {
        Complex {
            re: self.re * rhs.re - self.im * rhs.im,
            im: self.re * rhs.im + self.im * rhs.re,
        }
    }
}

impl<T: Clone + Copy + Div<T, Output = T> + Add<T, Output = T> + Sub<T, Output = T> + Mul<T, Output = T>> Complex<T> {
    /// The real part of `self * conj(rhs)`: the numerator of the quotient's
    /// real part.
    pub open spec fn div_re_numer(self, rhs: Complex<T>) -> T {
        self.re.mul_spec(rhs.re).add_spec(self.im.mul_spec(rhs.im))
    }

    /// The imaginary part of `self * conj(rhs)`: the numerator of the
    /// quotient's imaginary part.
    pub open spec fn div_im_numer(self, rhs: Complex<T>) -> T {
        self.im.mul_spec(rhs.re).sub_spec(self.re.mul_spec(rhs.im))
    }
}

impl<T: Clone + Copy + Div<T, Output = T> + Add<T, Output = T> + Sub<T, Output = T> + Mul<T, Output = T>> DivSpecImpl for Complex<T> {
    open spec fn obeys_div_spec() -> bool {
        T::obeys_mul_spec() && T::obeys_add_spec() && T::obeys_sub_spec() && T::obeys_div_spec()
    }

    /// Both numerators and the divisor's squared magnitude are defined, and
    /// the element type accepts that squared magnitude as a divisor. For the
    /// integers this leaves out the zero divisor.
    open spec fn div_req(self, rhs: Complex<T>) -> bool {
        &&& T::obeys_mul_spec()
        &&& T::obeys_add_spec()
        &&& T::obeys_sub_spec()
        &&& rhs.norm_sq_req()
        &&& self.re.mul_req(rhs.re)
        &&& self.im.mul_req(rhs.im)
        &&& self.re.mul_spec(rhs.re).add_req(self.im.mul_spec(rhs.im))
        &&& self.im.mul_req(rhs.re)
        &&& self.re.mul_req(rhs.im)
        &&& self.im.mul_spec(rhs.re).sub_req(self.re.mul_spec(rhs.im))
        &&& self.div_re_numer(rhs).div_req(rhs.norm_sq_spec())
        &&& self.div_im_numer(rhs).div_req(rhs.norm_sq_spec())
    }

    open spec fn div_spec(self, rhs: Complex<T>) -> Complex<T> {
        Complex {
            re: self.div_re_numer(rhs).div_spec(rhs.norm_sq_spec()),
            im: self.div_im_numer(rhs).div_spec(rhs.norm_sq_spec()),
        }
    }
}

impl<T: Clone + Copy + Div<T, Output = T> + Add<T, Output = T> + Sub<T, Output = T> + Mul<T, Output = T>> Div for Complex<T> {
    type Output = Complex<T>;

    /// Divides one complex number by another.
    #[inline]
    fn div(self, rhs: Complex<T>) -> (quotient: Complex<T>)
        ensures
            T::obeys_div_spec() ==> quotient == (Complex {
                re: self.div_re_numer(rhs).div_spec(rhs.norm_sq_spec()),
                im: self.div_im_numer(rhs).div_spec(rhs.norm_sq_spec()),
            }),
    {
        Complex {
            re: (self.re * rhs.re + self.im * rhs.im) / (rhs.re * rhs.re + rhs.im * rhs.im),
            im: (self.im * rhs.re - self.re * rhs.im) / (rhs.re * rhs.re + rhs.im * rhs.im),
        }
    }
}

} // verus!
