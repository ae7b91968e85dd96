//! Real spherical harmonics and real solid harmonics.
use vstd::prelude::*;
use crate::coordinates::{Position, SHCoordinates};
use crate::float::{from_int, pow_int, SphrsFloat};
use crate::sh::hardcoded::{
    closed_form, sh00, sh10, sh1n1, sh1p1, sh20, sh2n1, sh2n2, sh2p1, sh2p2, sh30, sh3n1, sh3n2,
    sh3n3, sh3p1, sh3p2, sh3p3,
};
use crate::sh::legendre::{legendre, normalization, valid_pair, K, P};

verus! {

/// The real spherical harmonic of degree `l` and order `m` at `p`, from the
/// normalization constant and the associated Legendre polynomial:
///
/// - `m = 0`: `K(l, 0) P(l, 0, cos theta)`;
/// - `m > 0`: `sqrt(2) K(l, m) cos(m phi) P(l, m, cos theta)`;
/// - `m < 0`: `sqrt(2) K(l, |m|) sin(|m| phi) P(l, |m|, cos theta)`.
pub open spec fn real_harmonic<T: SphrsFloat>(l: int, m: int, q: Position<T>) -> T {
    if m == 0 {
        normalization::<T>(l, 0).mul(legendre(l, 0, q.theta_cos))
    } else if m > 0 {
        T::sqrt_2().mul(normalization::<T>(l, m)).mul(from_int::<T>(m).mul(q.phi).cos()).mul(
            legendre(l, m, q.theta_cos),
        )
    } else {
        T::sqrt_2().mul(normalization::<T>(l, -m)).mul(
            from_int::<T>(-m).mul(q.phi).sin(),
        ).mul(legendre(l, -m, q.theta_cos))
    }
}

/// The real spherical harmonic as the library evaluates it: by its closed
/// form up to degree 3, by [`real_harmonic`] above.
pub open spec fn real_spherical<T: SphrsFloat>(l: int, m: int, q: Position<T>) -> T {
    if l <= 3 {
        closed_form::<T>(l, m, q)
    } else {
        real_harmonic::<T>(l, m, q)
    }
}

/// The factor `sqrt(4 pi / (2 l + 1))` that turns a spherical harmonic of
/// degree `l` into a solid harmonic, before the power of the radius.
pub open spec fn solid_factor<T: SphrsFloat>(l: int) -> T {
    from_int::<T>(4).mul(T::pi()).div(from_int::<T>(2 * l + 1)).sqrt()
}

/// The scaling of a regular solid harmonic of degree `l` at radius `r`:
/// `sqrt(4 pi / (2 l + 1)) r^l`.
pub open spec fn regular_scaling<T: SphrsFloat>(l: int, r: T) -> T {
    solid_factor::<T>(l).mul(pow_int(r, l))
}

/// The scaling of an irregular solid harmonic of degree `l` at radius `r`:
/// `sqrt(4 pi / (2 l + 1)) / r^(l + 1)`.
pub open spec fn irregular_scaling<T: SphrsFloat>(l: int, r: T) -> T {
    solid_factor::<T>(l).div(pow_int(r, l + 1))
}

/// The real regular solid harmonic of degree `l` and order `m` at `p`.
pub open spec fn real_regular_solid<T: SphrsFloat>(l: int, m: int, q: Position<T>) -> T {
    regular_scaling(l, q.r).mul(real_spherical::<T>(l, m, q))
}

/// The real irregular solid harmonic of degree `l` and order `m` at `p`.
pub open spec fn real_irregular_solid<T: SphrsFloat>(l: int, m: int, q: Position<T>) -> T {
    irregular_scaling(l, q.r).mul(real_spherical::<T>(l, m, q))
}

/// Computes `sqrt(4 pi / (2 l + 1))`.
pub(crate) fn make_solid_factor<T: SphrsFloat>(l: i64) -> (out: T)
    requires
        valid_pair(l as int, 0),
    ensures
        out == solid_factor::<T>(l as int),
{
    T::from_i64(4).mul(T::pi()).div(T::from_i64(2 * l + 1)).sqrt()
}

/// Computes the scaling of a regular solid harmonic.
pub(crate) fn make_regular_scaling<T: SphrsFloat>(l: i64, r: T) -> (out: T)
    requires
        valid_pair(l as int, 0),
    ensures
        out == regular_scaling(l as int, r),
{
    make_solid_factor::<T>(l).mul(r.powi(l))
}

/// Computes the scaling of an irregular solid harmonic.
pub(crate) fn make_irregular_scaling<T: SphrsFloat>(l: i64, r: T) -> (out: T)
    requires
        valid_pair(l as int, 0),
    ensures
        out == irregular_scaling(l as int, r),
{
    make_solid_factor::<T>(l).div(r.powi(l + 1))
}

/// Real spherical harmonic of degree `l` and order `m` at `p`, by the
/// recurrence of the associated Legendre polynomials. Valid at every degree.
#[allow(non_snake_case)]
pub fn real_SH<T: SphrsFloat, C: SHCoordinates<T>>(l: i64, m: i64, p: &C) -> (out: T)
    requires
        valid_pair(l as int, m as int),
    ensures
        out == real_harmonic::<T>(l as int, m as int, p.position()),
{
    if m == 0 {
        K::<T>(l, 0).mul(P(l, 0, p.theta_cos()))
    } else if m > 0 {
        T::sqrt_2().mul(K::<T>(l, m)).mul(T::from_i64(m).mul(p.phi()).cos()).mul(
            P(l, m, p.theta_cos()),
        )
    } else {
        T::sqrt_2().mul(K::<T>(l, -m)).mul(T::from_i64(-m).mul(p.phi()).sin()).mul(
            P(l, -m, p.theta_cos()),
        )
    }
}

/// Real spherical harmonic of degree `l` and order `m` at `p`: the closed
/// form where there is one (degree at most 3), the recurrence otherwise.
#[allow(non_snake_case)]
pub fn real_SH_hardcoded<T: SphrsFloat, C: SHCoordinates<T>>(l: i64, m: i64, p: &C) -> (out: T)
    requires
        valid_pair(l as int, m as int),
    ensures
        out == real_spherical::<T>(l as int, m as int, p.position()),
{
    if l == 0 {
        sh00(p)
    } else if l == 1 {
        if m == -1 {
            sh1n1(p)
        } else if m == 0 {
            sh10(p)
        } else {
            sh1p1(p)
        }
    } else if l == 2 {
        if m == -2 {
            sh2n2(p)
        } else if m == -1 {
            sh2n1(p)
        } else if m == 0 {
            sh20(p)
        } else if m == 1 {
            sh2p1(p)
        } else {
            sh2p2(p)
        }
    } else if l == 3 {
        if m == -3 {
            sh3n3(p)
        } else if m == -2 {
            sh3n2(p)
        } else if m == -1 {
            sh3n1(p)
        } else if m == 0 {
            sh30(p)
        } else if m == 1 {
            sh3p1(p)
        } else if m == 2 {
            sh3p2(p)
        } else {
            sh3p3(p)
        }
    } else {
        real_SH(l, m, p)
    }
}

/// Real regular solid harmonic of degree `l` and order `m` at `p`: the
/// spherical harmonic scaled by `sqrt(4 pi / (2 l + 1)) r^l`.
#[allow(non_snake_case)]
pub fn real_regular_solid_SH<T: SphrsFloat, C: SHCoordinates<T>>(l: i64, m: i64, p: &C) -> (out:
    T)
    requires
        valid_pair(l as int, m as int),
    ensures
        out == real_regular_solid::<T>(l as int, m as int, p.position()),
{
    make_regular_scaling(l, p.r()).mul(real_SH_hardcoded(l, m, p))
}

/// Real irregular solid harmonic of degree `l` and order `m` at `p`: the
/// spherical harmonic scaled by `sqrt(4 pi / (2 l + 1)) / r^(l + 1)`.
///
/// The caller keeps `r` away from zero; at `r = 0` the result is whatever the
/// scalar makes of a division by zero.
#[allow(non_snake_case)]
pub fn real_irregular_solid_SH<T: SphrsFloat, C: SHCoordinates<T>>(l: i64, m: i64, p: &C) -> (out:
    T)
    requires
        valid_pair(l as int, m as int),
    ensures
        out == real_irregular_solid::<T>(l as int, m as int, p.position()),
{
    make_irregular_scaling(l, p.r()).mul(real_SH_hardcoded(l, m, p))
}

/// A regular and an irregular real solid harmonic are the real spherical
/// harmonic of the same degree and order, times a scaling that depends on
/// the degree and the radius alone: `sqrt(4 pi / (2 l + 1)) r^l` for the
/// regular one and `sqrt(4 pi / (2 l + 1)) / r^(l + 1)` for the irregular
/// one.
pub proof fn lemma_real_solid_scaling<T: SphrsFloat>(l: int, m: int, q: Position<T>)
    ensures
        real_regular_solid::<T>(l, m, q) == solid_factor::<T>(l).mul(pow_int(q.r, l)).mul(
            real_spherical::<T>(l, m, q),
        ),
        real_irregular_solid::<T>(l, m, q) == solid_factor::<T>(l).div(pow_int(q.r, l + 1)).mul(
            real_spherical::<T>(l, m, q),
        ),
{
}

/// Where the scalar's product is commutative and associative and
/// multiplying by a power of the radius undoes dividing by it (and the
/// other way round), the scaling can be taken off again:
/// `regular / r^l = spherical * sqrt(4 pi / (2 l + 1))` and
/// `irregular * r^(l + 1) = spherical * sqrt(4 pi / (2 l + 1))`.
///
/// Rounding arithmetic meets these hypotheses only up to rounding.
pub proof fn lemma_real_solid_unscaled<T: SphrsFloat>(l: int, m: int, q: Position<T>)
    requires
        forall|a: T, b: T| #[trigger] a.mul(b) == b.mul(a),
        forall|a: T, b: T, c: T| #[trigger] a.mul(b).mul(c) == a.mul(b.mul(c)),
        forall|a: T| #[trigger] a.mul(pow_int(q.r, l)).div(pow_int(q.r, l)) == a,
        forall|a: T| #[trigger] a.div(pow_int(q.r, l + 1)).mul(pow_int(q.r, l + 1)) == a,
    ensures
        real_regular_solid::<T>(l, m, q).div(pow_int(q.r, l)) == real_spherical::<T>(l, m, q).mul(
            solid_factor::<T>(l),
        ),
        real_irregular_solid::<T>(l, m, q).mul(pow_int(q.r, l + 1)) == real_spherical::<T>(
            l,
            m,
            q,
        ).mul(solid_factor::<T>(l)),
{
    let f = solid_factor::<T>(l);
    let s = real_spherical::<T>(l, m, q);
    let w = pow_int(q.r, l);
    let v = pow_int(q.r, l + 1);
    assert(f.mul(w).mul(s) == s.mul(f).mul(w)) by {
        assert(f.mul(w).mul(s) == s.mul(f.mul(w)));
        assert(s.mul(f).mul(w) == s.mul(f.mul(w)));
    }
    assert(f.div(v).mul(s).mul(v) == s.mul(f)) by {
        assert(f.div(v).mul(s) == s.mul(f.div(v)));
        assert(s.mul(f.div(v)).mul(v) == s.mul(f.div(v).mul(v)));
    }
}

} // verus!
