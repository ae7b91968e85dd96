use sphrs::{
    real_SH, real_SH_hardcoded, sh2p1, sh3n2, ComplexSH, Coordinates, HarmonicsSet, Position,
    RealSH, SHCoordinates, SHEval, SphrsFloat, K, P, SH,
};
use std::f32::consts::PI;

/// Single precision as the scalar of the library.
#[derive(Clone, Copy, Debug, PartialEq)]
struct S(f32);

impl SphrsFloat for S {
    fn spec_add(self, _rhs: Self) -> Self {
        unreachable!()
    }

    fn spec_sub(self, _rhs: Self) -> Self {
        unreachable!()
    }

    fn spec_mul(self, _rhs: Self) -> Self {
        unreachable!()
    }

    fn spec_div(self, _rhs: Self) -> Self {
        unreachable!()
    }

    fn spec_neg(self) -> Self {
        unreachable!()
    }

    fn spec_sqrt(self) -> Self {
        unreachable!()
    }

    fn spec_sin(self) -> Self {
        unreachable!()
    }

    fn spec_cos(self) -> Self {
        unreachable!()
    }

    fn spec_acos(self) -> Self {
        unreachable!()
    }

    fn spec_atan2(self, _other: Self) -> Self {
        unreachable!()
    }

    fn spec_powi(self, _n: i64) -> Self {
        unreachable!()
    }

    fn spec_from_i64(_n: i64) -> Self {
        unreachable!()
    }

    fn spec_one() -> Self {
        unreachable!()
    }

    fn spec_pi() -> Self {
        unreachable!()
    }

    fn spec_frac_1_pi() -> Self {
        unreachable!()
    }

    fn spec_sqrt_2() -> Self {
        unreachable!()
    }

    fn add(self, rhs: Self) -> Self {
        S(self.0 + rhs.0)
    }

    fn sub(self, rhs: Self) -> Self {
        S(self.0 - rhs.0)
    }

    fn mul(self, rhs: Self) -> Self {
        S(self.0 * rhs.0)
    }

    fn div(self, rhs: Self) -> Self {
        S(self.0 / rhs.0)
    }

    fn neg(self) -> Self {
        S(-self.0)
    }

    fn sqrt(self) -> Self {
        S(self.0.sqrt())
    }

    fn sin(self) -> Self {
        S(self.0.sin())
    }

    fn cos(self) -> Self {
        S(self.0.cos())
    }

    fn acos(self) -> Self {
        S(self.0.acos())
    }

    fn atan2(self, other: Self) -> Self {
        S(self.0.atan2(other.0))
    }

    fn powi(self, n: i64) -> Self {
        S(self.0.powi(n as i32))
    }

    fn from_i64(n: i64) -> Self {
        S(n as f32)
    }

    fn one() -> Self {
        S(1.0)
    }

    fn pi() -> Self {
        S(std::f32::consts::PI)
    }

    fn frac_1_pi() -> Self {
        S(std::f32::consts::FRAC_1_PI)
    }

    fn sqrt_2() -> Self {
        S(std::f32::consts::SQRT_2)
    }
}


/// A point of the unit sphere, given by its two angles alone.
struct OnUnitSphere {
    theta: S,
    phi: S,
}

impl SHCoordinates<S> for OnUnitSphere {
    fn position(&self) -> Position<S> {
        unreachable!()
    }

    fn theta(&self) -> S {
        self.theta
    }

    fn phi(&self) -> S {
        self.phi
    }

    fn r(&self) -> S {
        S(1.0)
    }

    fn x(&self) -> S {
        S(self.theta.0.sin() * self.phi.0.cos())
    }

    fn y(&self) -> S {
        S(self.theta.0.sin() * self.phi.0.sin())
    }

    fn z(&self) -> S {
        S(self.theta.0.cos())
    }

    fn theta_cos(&self) -> S {
        S(self.theta.0.cos())
    }
}

fn close(a: f32, b: f32, tol: f32) -> bool {
    (a - b).abs() <= tol * (1.0 + a.abs().max(b.abs()))
}

#[test]
fn single_precision_closed_forms_agree_with_recurrence() {
    let tol = 20.0 * f32::EPSILON;
    let points = [
        Coordinates::spherical(S(1.0), S(PI / 4.0), S(PI / 2.0)),
        Coordinates::spherical(S(2.0), S(1.1), S(-2.3)),
        Coordinates::cartesian(S(1.0), S(1.0), S(0.3)),
        Coordinates::cartesian(S(0.0), S(0.0), S(1.0)),
    ];
    for p in points.iter() {
        for l in 0..=3i64 {
            for m in -l..=l {
                let closed = real_SH_hardcoded::<S, _>(l, m, p).0;
                let recurrence = real_SH::<S, _>(l, m, p).0;
                assert!(close(closed, recurrence, tol));
            }
        }
    }
}

#[test]
fn single_precision_values() {
    assert!(close(K::<S>(0, 0).0, 0.282_094_8, 1e-6));
    assert!(close(K::<S>(2, -1).0, 0.257_516_13, 1e-6));
    assert_eq!(P(7, 0, S(1.0)).0, 1.0);
    assert!(close(P(2, 0, S(0.5)).0, -0.125, 1e-6));
    let p = Coordinates::cartesian(S(1.0), S(1.0), S(1.0));
    assert!(close(sh2p1(&p).0, -0.364_182_8, 1e-6));
    assert!(close(sh3n2(&p).0, 0.556_298_4, 1e-6));
}

#[test]
fn any_coordinate_type_can_be_evaluated() {
    let (theta, phi) = (0.9f32, -0.4f32);
    let custom = OnUnitSphere { theta: S(theta), phi: S(phi) };
    let stock = Coordinates::spherical(S(1.0), S(theta), S(phi));
    for l in 0..=5i64 {
        for m in -l..=l {
            let a = real_SH_hardcoded::<S, _>(l, m, &custom).0;
            let b = real_SH_hardcoded::<S, _>(l, m, &stock).0;
            assert_eq!(a, b);
            let a = SH::<S, _>(l, m, &custom);
            let b = SH::<S, _>(l, m, &stock);
            assert_eq!(a.re.0, b.re.0);
            assert_eq!(a.im.0, b.im.0);
        }
    }
    let set: HarmonicsSet<S, RealSH> = HarmonicsSet::new(4, RealSH::RegularSolid);
    let a = set.eval(&custom);
    let b = set.eval(&stock);
    assert_eq!(a.len(), 25);
    for i in 0..25 {
        assert_eq!(a[i].0, b[i].0);
    }
    let set: HarmonicsSet<S, ComplexSH> = HarmonicsSet::new(2, ComplexSH::IrregularSolid);
    let a = set.eval(&custom);
    let single = ComplexSH::IrregularSolid.eval(2, -1, &custom);
    assert_eq!(a.len(), 9);
    assert_eq!(a[5].re.0, single.re.0);
    assert_eq!(a[5].im.0, single.im.0);
}
