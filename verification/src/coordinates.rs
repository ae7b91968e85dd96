//! Positions in space, held in Cartesian and in spherical form at once.
use vstd::prelude::*;
use crate::float::SphrsFloat;

verus! {

/// The seven numbers that describe a position: its Cartesian coordinates
/// `x, y, z`, its spherical coordinates `r, theta, phi`, and `cos(theta)`.
/// Contracts speak of a position through this record.
pub struct Position<T> {
    /// The radius `r`.
    pub r: T,
    /// The polar angle `theta`.
    pub theta: T,
    /// The azimuth `phi`.
    pub phi: T,
    /// The Cartesian coordinate `x`.
    pub x: T,
    /// The Cartesian coordinate `y`.
    pub y: T,
    /// The Cartesian coordinate `z`.
    pub z: T,
    /// The cosine of the polar angle.
    pub theta_cos: T,
}

/// What the harmonics read of a position.
///
/// A position never changes: each accessor returns the component of the same
/// name of the one record that [`SHCoordinates::position`] gives.
pub trait SHCoordinates<T: SphrsFloat>: Sized {
    /// The seven numbers of this position.
    spec fn position(&self) -> Position<T>;

    /// The polar angle `theta`.
    fn theta(&self) -> (out: T)
        ensures
            out == self.position().theta,
    ;

    /// The azimuth `phi`.
    fn phi(&self) -> (out: T)
        ensures
            out == self.position().phi,
    ;

    /// The radius `r`.
    fn r(&self) -> (out: T)
        ensures
            out == self.position().r,
    ;

    /// The Cartesian coordinate `x`.
    fn x(&self) -> (out: T)
        ensures
            out == self.position().x,
    ;

    /// The Cartesian coordinate `y`.
    fn y(&self) -> (out: T)
        ensures
            out == self.position().y,
    ;

    /// The Cartesian coordinate `z`.
    fn z(&self) -> (out: T)
        ensures
            out == self.position().z,
    ;

    /// The cosine of the polar angle.
    fn theta_cos(&self) -> (out: T)
        ensures
            out == self.position().theta_cos,
    ;
}

/// A position, with all seven quantities computed once at construction.
#[derive(Debug)]
pub struct Coordinates<T> {
    r: T,
    theta: T,
    phi: T,
    x: T,
    y: T,
    z: T,
    theta_cos: T,
}

impl<T: Copy> Clone for Coordinates<T> {
    fn clone(&self) -> (out: Self)
        ensures
            out == *self,
    {
        *self
    }
}

impl<T: Copy> Copy for Coordinates<T> {

}

/// The radius of the Cartesian point `(x, y, z)`: `sqrt(x^2 + y^2 + z^2)`.
pub open spec fn radius<T: SphrsFloat>(x: T, y: T, z: T) -> T {
    x.powi(2).add(y.powi(2)).add(z.powi(2)).sqrt()
}

/// The polar angle of the Cartesian point `(x, y, z)`: `acos(z / r)`.
pub open spec fn polar_angle<T: SphrsFloat>(x: T, y: T, z: T) -> T {
    z.div(radius(x, y, z)).acos()
}

/// The position with Cartesian coordinates `(x, y, z)`: its radius is
/// `sqrt(x^2 + y^2 + z^2)`, its polar angle `acos(z / r)` and its azimuth the
/// two-argument arctangent of `y` and `x`.
pub open spec fn from_cartesian<T: SphrsFloat>(x: T, y: T, z: T) -> Position<T> {
    Position {
        r: radius(x, y, z),
        theta: polar_angle(x, y, z),
        phi: y.atan2(x),
        x,
        y,
        z,
        theta_cos: polar_angle(x, y, z).cos(),
    }
}

/// The position with spherical coordinates `(r, theta, phi)`:
/// `x = r sin(theta) cos(phi)`, `y = r sin(theta) sin(phi)` and
/// `z = r cos(theta)`.
pub open spec fn from_spherical<T: SphrsFloat>(r: T, theta: T, phi: T) -> Position<T> {
    Position {
        r,
        theta,
        phi,
        x: r.mul(theta.sin()).mul(phi.cos()),
        y: r.mul(theta.sin()).mul(phi.sin()),
        z: r.mul(theta.cos()),
        theta_cos: theta.cos(),
    }
}

impl<T: SphrsFloat> Coordinates<T> {
    /// The position with Cartesian coordinates `(x, y, z)`. Its radius is
    /// `sqrt(x^2 + y^2 + z^2)`, its polar angle `acos(z / r)` and its azimuth
    /// the two-argument arctangent of `y` and `x`.
    ///
    /// At the origin the polar angle is whatever the scalar makes of `0 / 0`.
    pub fn cartesian(x: T, y: T, z: T) -> (p: Self)
        ensures
            p.position() == from_cartesian(x, y, z),
    {
        let r = x.powi(2).add(y.powi(2)).add(z.powi(2)).sqrt();
        let theta = z.div(r).acos();
        let phi = y.atan2(x);
        let theta_cos = theta.cos();
        Coordinates { r, theta, phi, x, y, z, theta_cos }
    }

    /// The position with spherical coordinates `(r, theta, phi)`:
    /// `x = r sin(theta) cos(phi)`, `y = r sin(theta) sin(phi)` and
    /// `z = r cos(theta)`.
    pub fn spherical(r: T, theta: T, phi: T) -> (p: Self)
        ensures
            p.position() == from_spherical(r, theta, phi),
    {
        let x = r.mul(theta.sin()).mul(phi.cos());
        let y = r.mul(theta.sin()).mul(phi.sin());
        let theta_cos = theta.cos();
        let z = r.mul(theta_cos);
        Coordinates { r, theta, phi, x, y, z, theta_cos }
    }
}

impl<T: SphrsFloat> SHCoordinates<T> for Coordinates<T> {
    closed spec fn position(&self) -> Position<T> {
        Position {
            r: self.r,
            theta: self.theta,
            phi: self.phi,
            x: self.x,
            y: self.y,
            z: self.z,
            theta_cos: self.theta_cos,
        }
    }

    fn theta(&self) -> T {
        self.theta
    }

    fn phi(&self) -> T {
        self.phi
    }

    fn r(&self) -> T {
        self.r
    }

    fn x(&self) -> T {
        self.x
    }

    fn y(&self) -> T {
        self.y
    }

    fn z(&self) -> T {
        self.z
    }

    fn theta_cos(&self) -> T {
        self.theta_cos
    }
}

} // verus!
