//! Complex spherical harmonics and complex solid harmonics.
use vstd::prelude::*;
use crate::complex::{complex_scaled, Complex};
use crate::coordinates::{Position, SHCoordinates};
use crate::float::{from_int, SphrsFloat};
use crate::sh::legendre::{legendre, magnitude, normalization, valid_pair, K, P};
use crate::sh::real_harmonics::{
    irregular_scaling, make_irregular_scaling, make_regular_scaling, regular_scaling,
};

verus! {

/// The sign that a negative order carries: `(-1)^|m|` for `m < 0`, and `1`
/// for every other order.
pub open spec fn order_sign<T: SphrsFloat>(m: int) -> T {
    if m < 0 && m % 2 != 0 {
        T::one().neg()
    } else {
        T::one()
    }
}

/// The complex spherical harmonic of degree `l` and order `m` at `p`. With
/// the magnitude `v = K(l, |m|) P(l, |m|, cos theta)` and the sign `s` of the
/// order it is `s v (cos(m phi) + i sin(m phi))`.
pub open spec fn complex_harmonic<T: SphrsFloat>(l: int, m: int, q: Position<T>) -> Complex<T> {
    let v = normalization::<T>(l, magnitude(m)).mul(legendre(l, magnitude(m), q.theta_cos));
    let angle = from_int::<T>(m).mul(q.phi);
    Complex {
        re: order_sign::<T>(m).mul(v).mul(angle.cos()),
        im: order_sign::<T>(m).mul(v).mul(angle.sin()),
    }
}

/// The complex regular solid harmonic of degree `l` and order `m` at `p`.
pub open spec fn complex_regular_solid<T: SphrsFloat>(l: int, m: int, q: Position<T>) -> Complex<T> {
    complex_scaled(complex_harmonic::<T>(l, m, q), regular_scaling(l, q.r))
}

/// The complex irregular solid harmonic of degree `l` and order `m` at `p`.
pub open spec fn complex_irregular_solid<T: SphrsFloat>(l: int, m: int, q: Position<T>) -> Complex<T> {
    complex_scaled(complex_harmonic::<T>(l, m, q), irregular_scaling(l, q.r))
}

/// Computes the sign that the order `m` carries.
fn make_order_sign<T: SphrsFloat>(m: i64) -> (out: T)
    ensures
        out == order_sign::<T>(m as int),
{
    if m < 0 && m % 2 != 0 {
        T::one().neg()
    } else {
        T::one()
    }
}

/// Complex spherical harmonic of degree `l` and order `m` at `p`.
#[allow(non_snake_case)]
pub fn SH<T: SphrsFloat, C: SHCoordinates<T>>(l: i64, m: i64, p: &C) -> (out: Complex<T>)
    requires
        valid_pair(l as int, m as int),
    ensures
        out == complex_harmonic::<T>(l as int, m as int, p.position()),
{
    let a: i64 = if m < 0 {
        -m
    } else {
        m
    };
    let v = K::<T>(l, a).mul(P(l, a, p.theta_cos()));
    let sign = make_order_sign::<T>(m);
    let angle = T::from_i64(m).mul(p.phi());
    Complex::new(sign.mul(v).mul(angle.cos()), sign.mul(v).mul(angle.sin()))
}

/// Complex regular solid harmonic of degree `l` and order `m` at `p`: the
/// spherical harmonic scaled by `sqrt(4 pi / (2 l + 1)) r^l`.
#[allow(non_snake_case)]
pub fn regular_solid_SH<T: SphrsFloat, C: SHCoordinates<T>>(l: i64, m: i64, p: &C) -> (out:
    Complex<T>)
    requires
        valid_pair(l as int, m as int),
    ensures
        out == complex_regular_solid::<T>(l as int, m as int, p.position()),
{
    let scaling = make_regular_scaling(l, p.r());
    SH(l, m, p).scale(scaling)
}

/// Complex irregular solid harmonic of degree `l` and order `m` at `p`: the
/// spherical harmonic scaled by `sqrt(4 pi / (2 l + 1)) / r^(l + 1)`.
///
/// The caller keeps `r` away from zero; at `r = 0` the result is whatever the
/// scalar makes of a division by zero.
#[allow(non_snake_case)]
pub fn irregular_solid_SH<T: SphrsFloat, C: SHCoordinates<T>>(l: i64, m: i64, p: &C) -> (out:
    Complex<T>)
    requires
        valid_pair(l as int, m as int),
    ensures
        out == complex_irregular_solid::<T>(l as int, m as int, p.position()),
{
    let scaling = make_irregular_scaling(l, p.r());
    SH(l, m, p).scale(scaling)
}

/// A regular and an irregular complex solid harmonic are the complex
/// spherical harmonic of the same degree and order with both parts
/// multiplied by the scaling of the real solid harmonics:
/// `sqrt(4 pi / (2 l + 1)) r^l` and `sqrt(4 pi / (2 l + 1)) / r^(l + 1)`.
pub proof fn lemma_complex_solid_scaling<T: SphrsFloat>(l: int, m: int, q: Position<T>)
    ensures
        complex_regular_solid::<T>(l, m, q).re == complex_harmonic::<T>(l, m, q).re.mul(
            regular_scaling(l, q.r),
        ),
        complex_regular_solid::<T>(l, m, q).im == complex_harmonic::<T>(l, m, q).im.mul(
            regular_scaling(l, q.r),
        ),
        complex_irregular_solid::<T>(l, m, q).re == complex_harmonic::<T>(l, m, q).re.mul(
            irregular_scaling(l, q.r),
        ),
        complex_irregular_solid::<T>(l, m, q).im == complex_harmonic::<T>(l, m, q).im.mul(
            irregular_scaling(l, q.r),
        ),
{
}

} // verus!
