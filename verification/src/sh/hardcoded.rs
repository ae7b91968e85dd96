//! Closed forms of the real spherical harmonics of degree 0 to 3, written in
//! the Cartesian coordinates of the position so that no trigonometric
//! function is evaluated.
use vstd::prelude::*;
use crate::coordinates::{Position, SHCoordinates};
use crate::float::{from_int, make_ratio, ratio, SphrsFloat};

verus! {

/// The constant in front of a closed form: `(n / d) * sqrt((kn / kd) / pi)`.
pub open spec fn prefactor<T: SphrsFloat>(n: int, d: int, kn: int, kd: int) -> T {
    ratio::<T>(n, d).mul(ratio::<T>(kn, kd).mul(T::frac_1_pi()).sqrt())
}

/// `x^2 - y^2`.
pub open spec fn square_difference<T: SphrsFloat>(x: T, y: T) -> T {
    x.powi(2).sub(y.powi(2))
}

/// `4 z^2 - x^2 - y^2`.
pub open spec fn axial_excess<T: SphrsFloat>(x: T, y: T, z: T) -> T {
    from_int::<T>(4).mul(z.powi(2)).sub(x.powi(2)).sub(y.powi(2))
}

/// The closed form of the real spherical harmonic of degree `l <= 3` and
/// order `m` at `p`. Each is its prefactor, times a homogeneous polynomial of
/// degree `l` in `x, y, z`, over `r^l`:
///
/// | `l` | `m`  | prefactor            | polynomial            |
/// |-----|------|----------------------|-----------------------|
/// | 0   | 0    | `1/2 sqrt(1/pi)`     | `1`                   |
/// | 1   | -1   | `-sqrt(3/(4 pi))`    | `y`                   |
/// | 1   | 0    | `sqrt(3/(4 pi))`     | `z`                   |
/// | 1   | 1    | `-sqrt(3/(4 pi))`    | `x`                   |
/// | 2   | -2   | `1/2 sqrt(15/pi)`    | `x y`                 |
/// | 2   | -1   | `-1/2 sqrt(15/pi)`   | `y z`                 |
/// | 2   | 0    | `1/4 sqrt(5/pi)`     | `-x^2 - y^2 + 2 z^2`  |
/// | 2   | 1    | `-1/2 sqrt(15/pi)`   | `z x`                 |
/// | 2   | 2    | `1/4 sqrt(15/pi)`    | `x^2 - y^2`           |
/// | 3   | -3   | `-1/4 sqrt(35/(2 pi))` | `(3 x^2 - y^2) y`   |
/// | 3   | -2   | `1/2 sqrt(105/pi)`   | `x y z`               |
/// | 3   | -1   | `-1/4 sqrt(21/(2 pi))` | `y (4 z^2 - x^2 - y^2)` |
/// | 3   | 0    | `1/4 sqrt(7/pi)`     | `z (5 z^2 - 3 r^2)`   |
/// | 3   | 1    | `-1/4 sqrt(21/(2 pi))` | `x (4 z^2 - x^2 - y^2)` |
/// | 3   | 2    | `1/4 sqrt(105/pi)`   | `(x^2 - y^2) z`       |
/// | 3   | 3    | `-1/4 sqrt(35/(2 pi))` | `(x^2 - 3 y^2) x`   |
///
/// The signs are those of the recursive evaluator. For any other pair the
/// value is left open.
pub open spec fn closed_form<T: SphrsFloat>(l: int, m: int, q: Position<T>) -> T {
    let x = q.x;
    let y = q.y;
    let z = q.z;
    let r = q.r;
    if l == 0 && m == 0 {
        prefactor::<T>(1, 2, 1, 1)
    } else if l == 1 && m == -1 {
        prefactor::<T>(-1, 1, 3, 4).mul(y).div(r)
    } else if l == 1 && m == 0 {
        prefactor::<T>(1, 1, 3, 4).mul(z).div(r)
    } else if l == 1 && m == 1 {
        prefactor::<T>(-1, 1, 3, 4).mul(x).div(r)
    } else if l == 2 && m == -2 {
        prefactor::<T>(1, 2, 15, 1).mul(x.mul(y)).div(r.powi(2))
    } else if l == 2 && m == -1 {
        prefactor::<T>(-1, 2, 15, 1).mul(y.mul(z)).div(r.powi(2))
    } else if l == 2 && m == 0 {
        prefactor::<T>(1, 4, 5, 1).mul(
            x.powi(2).neg().sub(y.powi(2)).add(from_int::<T>(2).mul(z.powi(2))),
        ).div(r.powi(2))
    } else if l == 2 && m == 1 {
        prefactor::<T>(-1, 2, 15, 1).mul(z.mul(x)).div(r.powi(2))
    } else if l == 2 && m == 2 {
        prefactor::<T>(1, 4, 15, 1).mul(square_difference(x, y)).div(r.powi(2))
    } else if l == 3 && m == -3 {
        prefactor::<T>(-1, 4, 35, 2).mul(from_int::<T>(3).mul(x.powi(2)).sub(y.powi(2))).mul(
            y,
        ).div(r.powi(3))
    } else if l == 3 && m == -2 {
        prefactor::<T>(1, 2, 105, 1).mul(x.mul(y).mul(z)).div(r.powi(3))
    } else if l == 3 && m == -1 {
        prefactor::<T>(-1, 4, 21, 2).mul(y).mul(axial_excess(x, y, z)).div(r.powi(3))
    } else if l == 3 && m == 0 {
        prefactor::<T>(1, 4, 7, 1).mul(z).mul(
            from_int::<T>(5).mul(z.powi(2)).sub(from_int::<T>(3).mul(r.powi(2))),
        ).div(r.powi(3))
    } else if l == 3 && m == 1 {
        prefactor::<T>(-1, 4, 21, 2).mul(x).mul(axial_excess(x, y, z)).div(r.powi(3))
    } else if l == 3 && m == 2 {
        prefactor::<T>(1, 4, 105, 1).mul(square_difference(x, y)).mul(z).div(r.powi(3))
    } else if l == 3 && m == 3 {
        prefactor::<T>(-1, 4, 35, 2).mul(x.powi(2).sub(from_int::<T>(3).mul(y.powi(2)))).mul(
            x,
        ).div(r.powi(3))
    } else {
        arbitrary()
    }
}

/// Computes the constant in front of a closed form.
fn make_prefactor<T: SphrsFloat>(n: i64, d: i64, kn: i64, kd: i64) -> (out: T)
    ensures
        out == prefactor::<T>(n as int, d as int, kn as int, kd as int),
{
    make_ratio::<T>(n, d).mul(make_ratio::<T>(kn, kd).mul(T::frac_1_pi()).sqrt())
}

/// Computes `x^2 - y^2`.
fn make_square_difference<T: SphrsFloat>(x: T, y: T) -> (out: T)
    ensures
        out == square_difference(x, y),
{
    x.powi(2).sub(y.powi(2))
}

/// Computes `4 z^2 - x^2 - y^2`.
fn make_axial_excess<T: SphrsFloat>(x: T, y: T, z: T) -> (out: T)
    ensures
        out == axial_excess(x, y, z),
{
    T::from_i64(4).mul(z.powi(2)).sub(x.powi(2)).sub(y.powi(2))
}

/// Real spherical harmonic of degree 0, order 0: the constant
/// `1/2 sqrt(1/pi)`.
pub fn sh00<T: SphrsFloat, C: SHCoordinates<T>>(p: &C) -> (out: T)
    ensures
        out == closed_form::<T>(0, 0, p.position()),
{
    make_prefactor::<T>(1, 2, 1, 1)
}

/// Real spherical harmonic of degree 1, order -1: `-sqrt(3/(4 pi)) y / r`.
pub fn sh1n1<T: SphrsFloat, C: SHCoordinates<T>>(p: &C) -> (out: T)
    ensures
        out == closed_form::<T>(1, -1, p.position()),
{
    make_prefactor::<T>(-1, 1, 3, 4).mul(p.y()).div(p.r())
}

/// Real spherical harmonic of degree 1, order 0: `sqrt(3/(4 pi)) z / r`.
pub fn sh10<T: SphrsFloat, C: SHCoordinates<T>>(p: &C) -> (out: T)
    ensures
        out == closed_form::<T>(1, 0, p.position()),
{
    make_prefactor::<T>(1, 1, 3, 4).mul(p.z()).div(p.r())
}

/// Real spherical harmonic of degree 1, order 1: `-sqrt(3/(4 pi)) x / r`.
pub fn sh1p1<T: SphrsFloat, C: SHCoordinates<T>>(p: &C) -> (out: T)
    ensures
        out == closed_form::<T>(1, 1, p.position()),
{
    make_prefactor::<T>(-1, 1, 3, 4).mul(p.x()).div(p.r())
}

/// Real spherical harmonic of degree 2, order -2:
/// `1/2 sqrt(15/pi) x y / r^2`.
pub fn sh2n2<T: SphrsFloat, C: SHCoordinates<T>>(p: &C) -> (out: T)
    ensures
        out == closed_form::<T>(2, -2, p.position()),
{
    make_prefactor::<T>(1, 2, 15, 1).mul(p.x().mul(p.y())).div(p.r().powi(2))
}

/// Real spherical harmonic of degree 2, order -1:
/// `-1/2 sqrt(15/pi) y z / r^2`.
pub fn sh2n1<T: SphrsFloat, C: SHCoordinates<T>>(p: &C) -> (out: T)
    ensures
        out == closed_form::<T>(2, -1, p.position()),
{
    make_prefactor::<T>(-1, 2, 15, 1).mul(p.y().mul(p.z())).div(p.r().powi(2))
}

/// Real spherical harmonic of degree 2, order 0:
/// `1/4 sqrt(5/pi) (-x^2 - y^2 + 2 z^2) / r^2`.
pub fn sh20<T: SphrsFloat, C: SHCoordinates<T>>(p: &C) -> (out: T)
    ensures
        out == closed_form::<T>(2, 0, p.position()),
{
    let poly = p.x().powi(2).neg().sub(p.y().powi(2)).add(
        T::from_i64(2).mul(p.z().powi(2)),
    );
    make_prefactor::<T>(1, 4, 5, 1).mul(poly).div(p.r().powi(2))
}

/// Real spherical harmonic of degree 2, order 1:
/// `-1/2 sqrt(15/pi) z x / r^2`.
pub fn sh2p1<T: SphrsFloat, C: SHCoordinates<T>>(p: &C) -> (out: T)
    ensures
        out == closed_form::<T>(2, 1, p.position()),
{
    make_prefactor::<T>(-1, 2, 15, 1).mul(p.z().mul(p.x())).div(p.r().powi(2))
}

/// Real spherical harmonic of degree 2, order 2:
/// `1/4 sqrt(15/pi) (x^2 - y^2) / r^2`.
pub fn sh2p2<T: SphrsFloat, C: SHCoordinates<T>>(p: &C) -> (out: T)
    ensures
        out == closed_form::<T>(2, 2, p.position()),
{
    make_prefactor::<T>(1, 4, 15, 1).mul(make_square_difference(p.x(), p.y())).div(
        p.r().powi(2),
    )
}

/// Real spherical harmonic of degree 3, order -3:
/// `-1/4 sqrt(35/(2 pi)) (3 x^2 - y^2) y / r^3`.
pub fn sh3n3<T: SphrsFloat, C: SHCoordinates<T>>(p: &C) -> (out: T)
    ensures
        out == closed_form::<T>(3, -3, p.position()),
{
    let poly = T::from_i64(3).mul(p.x().powi(2)).sub(p.y().powi(2));
    make_prefactor::<T>(-1, 4, 35, 2).mul(poly).mul(p.y()).div(p.r().powi(3))
}

/// Real spherical harmonic of degree 3, order -2:
/// `1/2 sqrt(105/pi) x y z / r^3`.
pub fn sh3n2<T: SphrsFloat, C: SHCoordinates<T>>(p: &C) -> (out: T)
    ensures
        out == closed_form::<T>(3, -2, p.position()),
{
    make_prefactor::<T>(1, 2, 105, 1).mul(p.x().mul(p.y()).mul(p.z())).div(p.r().powi(3))
}

/// Real spherical harmonic of degree 3, order -1:
/// `-1/4 sqrt(21/(2 pi)) y (4 z^2 - x^2 - y^2) / r^3`.
pub fn sh3n1<T: SphrsFloat, C: SHCoordinates<T>>(p: &C) -> (out: T)
    ensures
        out == closed_form::<T>(3, -1, p.position()),
{
    make_prefactor::<T>(-1, 4, 21, 2).mul(p.y()).mul(
        make_axial_excess(p.x(), p.y(), p.z()),
    ).div(p.r().powi(3))
}

/// Real spherical harmonic of degree 3, order 0:
/// `1/4 sqrt(7/pi) z (5 z^2 - 3 r^2) / r^3`.
pub fn sh30<T: SphrsFloat, C: SHCoordinates<T>>(p: &C) -> (out: T)
    ensures
        out == closed_form::<T>(3, 0, p.position()),
{
    let poly = T::from_i64(5).mul(p.z().powi(2)).sub(
        T::from_i64(3).mul(p.r().powi(2)),
    );
    make_prefactor::<T>(1, 4, 7, 1).mul(p.z()).mul(poly).div(p.r().powi(3))
}

/// Real spherical harmonic of degree 3, order 1:
/// `-1/4 sqrt(21/(2 pi)) x (4 z^2 - x^2 - y^2) / r^3`.
pub fn sh3p1<T: SphrsFloat, C: SHCoordinates<T>>(p: &C) -> (out: T)
    ensures
        out == closed_form::<T>(3, 1, p.position()),
{
    make_prefactor::<T>(-1, 4, 21, 2).mul(p.x()).mul(
        make_axial_excess(p.x(), p.y(), p.z()),
    ).div(p.r().powi(3))
}

/// Real spherical harmonic of degree 3, order 2:
/// `1/4 sqrt(105/pi) (x^2 - y^2) z / r^3`.
pub fn sh3p2<T: SphrsFloat, C: SHCoordinates<T>>(p: &C) -> (out: T)
    ensures
        out == closed_form::<T>(3, 2, p.position()),
{
    make_prefactor::<T>(1, 4, 105, 1).mul(make_square_difference(p.x(), p.y())).mul(
        p.z(),
    ).div(p.r().powi(3))
}

/// Real spherical harmonic of degree 3, order 3:
/// `-1/4 sqrt(35/(2 pi)) (x^2 - 3 y^2) x / r^3`.
pub fn sh3p3<T: SphrsFloat, C: SHCoordinates<T>>(p: &C) -> (out: T)
    ensures
        out == closed_form::<T>(3, 3, p.position()),
{
    let poly = p.x().powi(2).sub(T::from_i64(3).mul(p.y().powi(2)));
    make_prefactor::<T>(-1, 4, 35, 2).mul(poly).mul(p.x()).div(p.r().powi(3))
}

} // verus!
