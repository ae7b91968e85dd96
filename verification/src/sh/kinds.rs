//! The kinds of harmonic of each family.
use vstd::prelude::*;
use crate::complex::{complex_product, Complex};
use crate::coordinates::{Position, SHCoordinates};
use crate::float::SphrsFloat;
use crate::sh::complex_harmonics::{
    complex_harmonic, complex_irregular_solid, complex_regular_solid, irregular_solid_SH,
    regular_solid_SH, SH,
};
use crate::sh::legendre::valid_pair;
use crate::sh::real_harmonics::{
    real_SH_hardcoded, real_irregular_solid, real_irregular_solid_SH, real_regular_solid,
    real_regular_solid_SH, real_spherical,
};

verus! {

/// A kind of harmonic: what it evaluates to for a degree, an order and a
/// position, and how one of its values is multiplied by a coefficient.
pub trait SHEval<T: SphrsFloat>: Copy {
    /// The type of a value: a scalar or a complex number.
    type Output: Copy;

    /// The harmonic of degree `l` and order `m` at the position `q`.
    spec fn spec_eval(&self, l: int, m: int, q: Position<T>) -> Self::Output;

    /// The product of a harmonic value and a coefficient.
    spec fn spec_weighted(value: Self::Output, coefficient: Self::Output) -> Self::Output;

    /// Evaluates the harmonic of degree `l` and order `m` at `p`.
    fn eval<C: SHCoordinates<T>>(&self, l: i64, m: i64, p: &C) -> (out: Self::Output)
        requires
            valid_pair(l as int, m as int),
        ensures
            out == self.spec_eval(l as int, m as int, p.position()),
    ;

    /// Multiplies a harmonic value by a coefficient.
    fn weighted(value: Self::Output, coefficient: Self::Output) -> (out: Self::Output)
        ensures
            out == Self::spec_weighted(value, coefficient),
    ;
}

/// The kinds of real harmonic.
#[derive(Clone, Copy, Debug)]
pub enum RealSH {
    /// Spherical harmonics.
    Spherical,
    /// Regular solid harmonics.
    RegularSolid,
    /// Irregular solid harmonics.
    IrregularSolid,
}

/// The kinds of complex harmonic.
#[derive(Clone, Copy, Debug)]
pub enum ComplexSH {
    /// Spherical harmonics.
    Spherical,
    /// Regular solid harmonics.
    RegularSolid,
    /// Irregular solid harmonics.
    IrregularSolid,
}

impl<T: SphrsFloat> SHEval<T> for RealSH {
    type Output = T;

    open spec fn spec_eval(&self, l: int, m: int, q: Position<T>) -> T {
        match self {
            RealSH::Spherical => real_spherical::<T>(l, m, q),
            RealSH::RegularSolid => real_regular_solid::<T>(l, m, q),
            RealSH::IrregularSolid => real_irregular_solid::<T>(l, m, q),
        }
    }

    open spec fn spec_weighted(value: T, coefficient: T) -> T {
        value.mul(coefficient)
    }

    fn eval<C: SHCoordinates<T>>(&self, l: i64, m: i64, p: &C) -> (out: T) {
        match self {
            RealSH::Spherical => real_SH_hardcoded(l, m, p),
            RealSH::RegularSolid => real_regular_solid_SH(l, m, p),
            RealSH::IrregularSolid => real_irregular_solid_SH(l, m, p),
        }
    }

    fn weighted(value: T, coefficient: T) -> (out: T) {
        value.mul(coefficient)
    }
}

impl<T: SphrsFloat> SHEval<T> for ComplexSH {
    type Output = Complex<T>;

    open spec fn spec_eval(&self, l: int, m: int, q: Position<T>) -> Complex<T> {
        match self {
            ComplexSH::Spherical => complex_harmonic::<T>(l, m, q),
            ComplexSH::RegularSolid => complex_regular_solid::<T>(l, m, q),
            ComplexSH::IrregularSolid => complex_irregular_solid::<T>(l, m, q),
        }
    }

    open spec fn spec_weighted(value: Complex<T>, coefficient: Complex<T>) -> Complex<T> {
        complex_product(value, coefficient)
    }

    fn eval<C: SHCoordinates<T>>(&self, l: i64, m: i64, p: &C) -> (out: Complex<T>) {
        match self {
            ComplexSH::Spherical => SH(l, m, p),
            ComplexSH::RegularSolid => regular_solid_SH(l, m, p),
            ComplexSH::IrregularSolid => irregular_solid_SH(l, m, p),
        }
    }

    fn weighted(value: Complex<T>, coefficient: Complex<T>) -> (out: Complex<T>) {
        value.mul(coefficient)
    }
}

} // verus!
