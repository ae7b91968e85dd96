//! Complex numbers in Cartesian form over the scalar of the library.
use vstd::prelude::*;
use crate::float::SphrsFloat;

verus! {

/// The complex number `re + i im`.
#[derive(Debug)]
pub struct Complex<T> {
    /// Real part.
    pub re: T,
    /// Imaginary part.
    pub im: T,
}

impl<T: Copy> Clone for Complex<T> {
    fn clone(&self) -> (out: Self)
        ensures
            out == *self,
    {
        *self
    }
}

impl<T: Copy> Copy for Complex<T> {

}

/// The product `(a + i b) (c + i d) = (a c - b d) + i (a d + b c)`.
pub open spec fn complex_product<T: SphrsFloat>(lhs: Complex<T>, rhs: Complex<T>) -> Complex<T> {
    Complex {
        re: lhs.re.mul(rhs.re).sub(lhs.im.mul(rhs.im)),
        im: lhs.re.mul(rhs.im).add(lhs.im.mul(rhs.re)),
    }
}

/// Both parts of `value` multiplied by the real number `factor`.
pub open spec fn complex_scaled<T: SphrsFloat>(value: Complex<T>, factor: T) -> Complex<T> {
    Complex { re: value.re.mul(factor), im: value.im.mul(factor) }
}

impl<T: SphrsFloat> Complex<T> {
    /// The complex number with the given real and imaginary part.
    pub fn new(re: T, im: T) -> (out: Self)
        ensures
            out == (Complex { re, im }),
    {
        Complex { re, im }
    }

    /// The product of two complex numbers.
    pub fn mul(self, rhs: Self) -> (out: Self)
        ensures
            out == complex_product(self, rhs),
    {
        let re = self.re.mul(rhs.re).sub(self.im.mul(rhs.im));
        let im = self.re.mul(rhs.im).add(self.im.mul(rhs.re));
        Complex { re, im }
    }

    /// The product of a complex number and a real one.
    pub fn scale(self, factor: T) -> (out: Self)
        ensures
            out == complex_scaled(self, factor),
    {
        Complex { re: self.re.mul(factor), im: self.im.mul(factor) }
    }
}

} // verus!
