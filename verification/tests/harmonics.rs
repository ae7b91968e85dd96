use sphrs::{
    irregular_solid_SH, real_SH, real_SH_hardcoded, real_irregular_solid_SH,
    real_regular_solid_SH, regular_solid_SH, sh00, sh10, sh1n1, sh1p1, sh20, sh2n1, sh2n2, sh2p1,
    sh2p2, sh30, sh3n1, sh3n2, sh3n3, sh3p1, sh3p2, sh3p3, Complex, ComplexSH, Coordinates,
    HarmonicsSet, RealSH, SHCoordinates, SHEval, SphrsFloat, K, P, SH,
};
use std::f64::consts::PI;

/// Double precision as the scalar of the library.
#[derive(Clone, Copy, Debug, PartialEq)]
struct F(f64);

impl SphrsFloat for F {
    fn spec_add(self, _rhs: Self) -> Self {
        unreachable!()
    }

    fn spec_sub(self, _rhs: Self) -> Self {
        unreachable!()
    }

    fn spec_mul(self, _rhs: Self) -> Self {
        unreachable!()
    }

    fn spec_div(self, _rhs: Self) -> Self {
        unreachable!()
    }

    fn spec_neg(self) -> Self {
        unreachable!()
    }

    fn spec_sqrt(self) -> Self {
        unreachable!()
    }

    fn spec_sin(self) -> Self {
        unreachable!()
    }

    fn spec_cos(self) -> Self {
        unreachable!()
    }

    fn spec_acos(self) -> Self {
        unreachable!()
    }

    fn spec_atan2(self, _other: Self) -> Self {
        unreachable!()
    }

    fn spec_powi(self, _n: i64) -> Self {
        unreachable!()
    }

    fn spec_from_i64(_n: i64) -> Self {
        unreachable!()
    }

    fn spec_one() -> Self {
        unreachable!()
    }

    fn spec_pi() -> Self {
        unreachable!()
    }

    fn spec_frac_1_pi() -> Self {
        unreachable!()
    }

    fn spec_sqrt_2() -> Self {
        unreachable!()
    }

    fn add(self, rhs: Self) -> Self {
        F(self.0 + rhs.0)
    }

    fn sub(self, rhs: Self) -> Self {
        F(self.0 - rhs.0)
    }

    fn mul(self, rhs: Self) -> Self {
        F(self.0 * rhs.0)
    }

    fn div(self, rhs: Self) -> Self {
        F(self.0 / rhs.0)
    }

    fn neg(self) -> Self {
        F(-self.0)
    }

    fn sqrt(self) -> Self {
        F(self.0.sqrt())
    }

    fn sin(self) -> Self {
        F(self.0.sin())
    }

    fn cos(self) -> Self {
        F(self.0.cos())
    }

    fn acos(self) -> Self {
        F(self.0.acos())
    }

    fn atan2(self, other: Self) -> Self {
        F(self.0.atan2(other.0))
    }

    fn powi(self, n: i64) -> Self {
        F(self.0.powi(n as i32))
    }

    fn from_i64(n: i64) -> Self {
        F(n as f64)
    }

    fn one() -> Self {
        F(1.0)
    }

    fn pi() -> Self {
        F(PI)
    }

    fn frac_1_pi() -> Self {
        F(std::f64::consts::FRAC_1_PI)
    }

    fn sqrt_2() -> Self {
        F(std::f64::consts::SQRT_2)
    }
}

fn spherical(r: f64, theta: f64, phi: f64) -> Coordinates<F> {
    Coordinates::spherical(F(r), F(theta), F(phi))
}

fn cartesian(x: f64, y: f64, z: f64) -> Coordinates<F> {
    Coordinates::cartesian(F(x), F(y), F(z))
}

fn comp(l: i64, m: i64, p: &Coordinates<F>, hcf: fn(&Coordinates<F>) -> F, tol: f64) {
    let rsh: f64 = real_SH::<F, _>(l, m, p).0;
    let hsh: f64 = hcf(p).0;
    assert!((rsh - hsh).abs() < tol);
}

#[test]
fn compare_hardcoded_and_recursive() {
    let tol = 10.0 * std::f64::EPSILON;
    let c = [
        spherical(1.0, PI / 4.0, PI / 2.0),
        spherical(2.0, PI / 4.0, PI / 2.0),
        spherical(2.0, PI / 2.0, PI / 4.0),
        spherical(0.5, 0.0, PI / 4.0),
        spherical(0.75, PI / 2.0, 0.0),
        cartesian(1.0, 1.0, 0.3),
        cartesian(1.0, 0.0, 0.0),
        cartesian(0.0, 1.0, 0.0),
        cartesian(0.0, 0.0, 1.0),
    ];

    for p in c.iter() {
        // 0th degree
        comp(0, 0, p, sh00, tol);
        // 1st degree
        comp(1, -1, p, sh1n1, tol);
        comp(1, 0, p, sh10, tol);
        comp(1, 1, p, sh1p1, tol);
        // 2nd degree
        comp(2, -2, p, sh2n2, tol);
        comp(2, -1, p, sh2n1, tol);
        comp(2, 0, p, sh20, tol);
        comp(2, 1, p, sh2p1, tol);
        comp(2, 2, p, sh2p2, tol);
        // 3rd degree
        comp(3, -3, p, sh3n3, tol);
        comp(3, -2, p, sh3n2, tol);
        comp(3, -1, p, sh3n1, tol);
        comp(3, 0, p, sh30, tol);
        comp(3, 1, p, sh3p1, tol);
        comp(3, 2, p, sh3p2, tol);
        comp(3, 3, p, sh3p3, tol);
    }
}

fn close(a: f64, b: f64, tol: f64) -> bool {
    (a - b).abs() <= tol * (1.0 + a.abs().max(b.abs()))
}

fn factorial(n: u32) -> f64 {
    let mut f = 1.0;
    for k in 1..=n {
        f *= k as f64;
    }
    f
}

fn sample_points() -> Vec<Coordinates<F>> {
    vec![
        spherical(1.0, PI / 4.0, PI / 2.0),
        spherical(2.0, 1.1, -2.3),
        spherical(0.5, 2.5, 0.7),
        cartesian(1.0, 1.0, 0.3),
        cartesian(-0.4, 0.9, -1.7),
        cartesian(3.0, -2.0, 0.5),
    ]
}

#[test]
fn degree_one_real_set_on_x_axis() {
    let set: HarmonicsSet<F, RealSH> = HarmonicsSet::new(1, RealSH::Spherical);
    let values = set.eval(&cartesian(1.0, 0.0, 0.0));
    assert_eq!(values.len(), 4);
    assert!(close(values[0].0, 0.5 / PI.sqrt(), 1e-15));
    assert_eq!(values[1].0, 0.0);
    assert_eq!(values[2].0, 0.0);
    assert!(close(values[3].0, -(3.0 / (4.0 * PI)).sqrt(), 1e-15));
}

#[test]
fn normalization_ignores_sign_of_order() {
    for l in 0..=12i64 {
        for m in 0..=l {
            assert_eq!(K::<F>(l, m).0, K::<F>(l, -m).0);
        }
    }
}

#[test]
fn normalization_matches_factorial_formula() {
    for l in 0..=8i64 {
        for m in -l..=l {
            let a = m.unsigned_abs() as u32;
            let expected = ((2 * l + 1) as f64 * factorial(l as u32 - a)
                / (4.0 * PI * factorial(l as u32 + a)))
            .sqrt();
            assert!(close(K::<F>(l, m).0, expected, 1e-14));
        }
    }
    assert!(close(K::<F>(0, 0).0, 0.28209479177387814, 1e-15));
    assert!(close(K::<F>(1, 1).0, 0.3454941494713355, 1e-15));
    assert!(close(K::<F>(2, 2).0, 0.1287580673410632, 1e-15));
}

#[test]
fn normalization_stays_finite_at_high_degree() {
    let k = K::<F>(30, 30).0;
    let expected = (61.0 / (4.0 * PI) / factorial(60)).sqrt();
    assert!(k.is_finite() && k > 0.0);
    assert!(close(k / expected, 1.0, 1e-13));
    let k = K::<F>(80, 80).0;
    let expected = (161.0 / (4.0 * PI) / factorial(160)).sqrt();
    assert!(k.is_finite() && k > 0.0);
    assert!(close(k / expected, 1.0, 1e-12));
}

#[test]
fn legendre_of_order_zero_is_one_at_one() {
    for l in 0..=60i64 {
        assert_eq!(P(l, 0, F(1.0)).0, 1.0);
    }
}

#[test]
fn legendre_matches_low_degree_polynomials() {
    for &x in &[-1.0, -0.6, -0.25, 0.0, 0.1, 0.5, 0.9, 1.0] {
        let s = (1.0 - x * x as f64).sqrt();
        assert!(close(P(0, 0, F(x)).0, 1.0, 1e-15));
        assert!(close(P(1, 0, F(x)).0, x, 1e-15));
        assert!(close(P(1, 1, F(x)).0, -s, 1e-15));
        assert!(close(P(2, 0, F(x)).0, 0.5 * (3.0 * x * x - 1.0), 1e-15));
        assert!(close(P(2, 1, F(x)).0, -3.0 * x * s, 1e-15));
        assert!(close(P(2, 2, F(x)).0, 3.0 * (1.0 - x * x), 1e-15));
        assert!(close(P(3, 0, F(x)).0, 0.5 * (5.0 * x * x * x - 3.0 * x), 1e-15));
        assert!(close(P(3, 3, F(x)).0, -15.0 * s * s * s, 1e-14));
        assert!(close(
            P(4, 2, F(x)).0,
            7.5 * (7.0 * x * x - 1.0) * (1.0 - x * x),
            1e-14
        ));
    }
}

#[test]
fn complex_harmonics_match_closed_forms() {
    for &(theta, phi) in &[(0.3, 0.0), (1.0, 2.0), (2.2, -1.4), (PI / 2.0, PI / 3.0)] {
        let p = spherical(1.0, theta, phi);
        let (st, ct) = (theta.sin(), theta.cos());

        let y = SH::<F, _>(0, 0, &p);
        assert!(close(y.re.0, 0.5 / PI.sqrt(), 1e-15));
        assert!(close(y.im.0, 0.0, 1e-15));

        let y = SH::<F, _>(1, 0, &p);
        assert!(close(y.re.0, (3.0 / (4.0 * PI)).sqrt() * ct, 1e-15));
        assert!(close(y.im.0, 0.0, 1e-15));

        let a = (3.0 / (8.0 * PI)).sqrt() * st;
        let y = SH::<F, _>(1, 1, &p);
        assert!(close(y.re.0, -a * phi.cos(), 1e-15));
        assert!(close(y.im.0, -a * phi.sin(), 1e-15));
        let y = SH::<F, _>(1, -1, &p);
        assert!(close(y.re.0, a * phi.cos(), 1e-15));
        assert!(close(y.im.0, -a * phi.sin(), 1e-15));

        let a = (15.0 / (8.0 * PI)).sqrt() * st * ct;
        let y = SH::<F, _>(2, 1, &p);
        assert!(close(y.re.0, -a * phi.cos(), 1e-15));
        assert!(close(y.im.0, -a * phi.sin(), 1e-15));

        let a = (15.0 / (32.0 * PI)).sqrt() * st * st;
        let y = SH::<F, _>(2, -2, &p);
        assert!(close(y.re.0, a * (2.0 * phi).cos(), 1e-15));
        assert!(close(y.im.0, -a * (2.0 * phi).sin(), 1e-15));
    }
}

#[test]
fn negative_orders_conjugate_with_sign() {
    for p in sample_points().iter() {
        for l in 0..=6i64 {
            for m in 1..=l {
                let plus = SH::<F, _>(l, m, p);
                let minus = SH::<F, _>(l, -m, p);
                let sign = if m % 2 == 0 { 1.0 } else { -1.0 };
                assert!(close(minus.re.0, sign * plus.re.0, 1e-14));
                assert!(close(minus.im.0, -sign * plus.im.0, 1e-14));
            }
        }
    }
}

#[test]
fn real_harmonics_are_parts_of_complex_ones() {
    let root2 = std::f64::consts::SQRT_2;
    for p in sample_points().iter() {
        for l in 0..=6i64 {
            let zero = SH::<F, _>(l, 0, p);
            assert!(close(real_SH::<F, _>(l, 0, p).0, zero.re.0, 1e-14));
            for m in 1..=l {
                let y = SH::<F, _>(l, m, p);
                assert!(close(real_SH::<F, _>(l, m, p).0, root2 * y.re.0, 1e-14));
                assert!(close(real_SH::<F, _>(l, -m, p).0, root2 * y.im.0, 1e-14));
            }
        }
    }
}

#[test]
fn dispatch_uses_closed_forms_up_to_degree_three() {
    let forms: [(i64, i64, fn(&Coordinates<F>) -> F); 16] = [
        (0, 0, sh00),
        (1, -1, sh1n1),
        (1, 0, sh10),
        (1, 1, sh1p1),
        (2, -2, sh2n2),
        (2, -1, sh2n1),
        (2, 0, sh20),
        (2, 1, sh2p1),
        (2, 2, sh2p2),
        (3, -3, sh3n3),
        (3, -2, sh3n2),
        (3, -1, sh3n1),
        (3, 0, sh30),
        (3, 1, sh3p1),
        (3, 2, sh3p2),
        (3, 3, sh3p3),
    ];
    for p in sample_points().iter() {
        for &(l, m, form) in forms.iter() {
            assert_eq!(real_SH_hardcoded::<F, _>(l, m, p).0, form(p).0);
        }
        for l in 4..=7i64 {
            for m in -l..=l {
                assert_eq!(real_SH_hardcoded::<F, _>(l, m, p).0, real_SH::<F, _>(l, m, p).0);
            }
        }
    }
}

#[test]
fn closed_forms_have_exact_values_on_the_axes() {
    let z = cartesian(0.0, 0.0, 2.0);
    assert!(close(sh00(&z).0, 0.28209479177387814, 1e-15));
    assert!(close(sh10(&z).0, 0.4886025119029199, 1e-15));
    assert!(close(sh20(&z).0, 0.6307831305050401, 1e-15));
    assert!(close(sh30(&z).0, 0.7463526651802308, 1e-15));
    let x = cartesian(2.0, 0.0, 0.0);
    assert!(close(sh1p1(&x).0, -0.4886025119029199, 1e-15));
    assert!(close(sh20(&x).0, -0.31539156525252005, 1e-15));
    assert!(close(sh2p2(&x).0, 0.5462742152960396, 1e-15));
    assert!(close(sh3p1(&x).0, 0.4570457994644658, 1e-15));
    assert!(close(sh3p3(&x).0, -0.5900435899266435, 1e-15));
    let y = cartesian(0.0, 2.0, 0.0);
    assert!(close(sh1n1(&y).0, -0.4886025119029199, 1e-15));
    assert!(close(sh2p2(&y).0, -0.5462742152960396, 1e-15));
    assert!(close(sh3n1(&y).0, 0.4570457994644658, 1e-15));
    assert!(close(sh3n3(&y).0, 0.5900435899266435, 1e-15));
    let d = cartesian(1.0, 1.0, 1.0);
    assert!(close(sh2n2(&d).0, 0.3641828101973597, 1e-15));
    assert!(close(sh2n1(&d).0, -0.3641828101973597, 1e-15));
    assert!(close(sh2p1(&d).0, -0.3641828101973597, 1e-15));
    assert!(close(sh3n2(&d).0, 0.5562984315103788, 1e-15));
    assert!(close(sh3p2(&d).0, 0.0, 1e-15));
}

#[test]
fn solid_harmonics_scale_the_spherical_one() {
    for p in sample_points().iter() {
        let r = p.r().0;
        for l in 0..=6i64 {
            let factor = (4.0 * PI / (2 * l + 1) as f64).sqrt();
            for m in -l..=l {
                let s = real_SH_hardcoded::<F, _>(l, m, p).0;
                let regular = real_regular_solid_SH::<F, _>(l, m, p).0;
                let irregular = real_irregular_solid_SH::<F, _>(l, m, p).0;
                assert!(close(regular / r.powi(l as i32), s * factor, 1e-13));
                assert!(close(irregular * r.powi(l as i32 + 1), s * factor, 1e-13));

                let c = SH::<F, _>(l, m, p);
                let regular = regular_solid_SH::<F, _>(l, m, p);
                let irregular = irregular_solid_SH::<F, _>(l, m, p);
                assert!(close(regular.re.0 / r.powi(l as i32), c.re.0 * factor, 1e-13));
                assert!(close(regular.im.0 / r.powi(l as i32), c.im.0 * factor, 1e-13));
                assert!(close(irregular.re.0 * r.powi(l as i32 + 1), c.re.0 * factor, 1e-13));
                assert!(close(irregular.im.0 * r.powi(l as i32 + 1), c.im.0 * factor, 1e-13));
            }
        }
    }
}

#[test]
fn solid_scaling_does_not_depend_on_the_radius() {
    for &r in &[0.25, 1.0, 3.5] {
        let p = spherical(r, 0.9, 0.4);
        let unit = spherical(1.0, 0.9, 0.4);
        for l in 0..=5i64 {
            for m in -l..=l {
                let regular = real_regular_solid_SH::<F, _>(l, m, &p).0 / r.powi(l as i32);
                let at_one = real_regular_solid_SH::<F, _>(l, m, &unit).0;
                assert!(close(regular, at_one, 1e-13));
            }
        }
    }
}

#[test]
fn irregular_solid_at_degree_zero_decays_with_the_radius() {
    let p = spherical(2.0, 0.9, 0.4);
    assert!(close(real_irregular_solid_SH::<F, _>(0, 0, &p).0, 0.5, 1e-15));
    assert!(close(real_regular_solid_SH::<F, _>(0, 0, &p).0, 1.0, 1e-15));
    let c = irregular_solid_SH::<F, _>(0, 0, &p);
    assert!(close(c.re.0, 0.5, 1e-15));
    assert!(close(c.im.0, 0.0, 1e-15));
}

#[test]
fn set_has_square_many_entries() {
    let p = cartesian(0.3, -1.2, 0.8);
    for degree in 0..=9usize {
        let expected = (degree + 1) * (degree + 1);
        for kind in [RealSH::Spherical, RealSH::RegularSolid, RealSH::IrregularSolid] {
            let set: HarmonicsSet<F, RealSH> = HarmonicsSet::new(degree, kind);
            assert_eq!(set.num_sh(), expected);
            assert_eq!(set.degree(), degree);
            assert_eq!(set.eval(&p).len(), expected);
        }
        for kind in [ComplexSH::Spherical, ComplexSH::RegularSolid, ComplexSH::IrregularSolid] {
            let set: HarmonicsSet<F, ComplexSH> = HarmonicsSet::new(degree, kind);
            assert_eq!(set.num_sh(), expected);
            assert_eq!(set.eval(&p).len(), expected);
        }
    }
}

#[test]
fn set_lists_degrees_then_orders_ascending() {
    let p = cartesian(0.3, -1.2, 0.8);
    let degree = 8usize;
    for kind in [RealSH::Spherical, RealSH::RegularSolid, RealSH::IrregularSolid] {
        let set: HarmonicsSet<F, RealSH> = HarmonicsSet::new(degree, kind);
        let values = set.eval(&p);
        let mut at = 0;
        for l in 0..=degree as i64 {
            for m in -l..=l {
                assert_eq!((l * l + l + m) as usize, at);
                let single: F = kind.eval(l, m, &p);
                assert_eq!(values[at].0, single.0);
                at += 1;
            }
        }
        assert_eq!(at, values.len());
    }
    let set: HarmonicsSet<F, ComplexSH> = HarmonicsSet::new(degree, ComplexSH::Spherical);
    let values = set.eval(&p);
    for l in 0..=degree as i64 {
        for m in -l..=l {
            let single = SH::<F, _>(l, m, &p);
            let at = (l * l + l + m) as usize;
            assert_eq!(values[at].re.0, single.re.0);
            assert_eq!(values[at].im.0, single.im.0);
        }
    }
}

#[test]
fn unit_coefficients_change_nothing() {
    for p in sample_points().iter() {
        for kind in [RealSH::Spherical, RealSH::RegularSolid, RealSH::IrregularSolid] {
            let set: HarmonicsSet<F, RealSH> = HarmonicsSet::new(5, kind);
            let plain = set.eval(p);
            let weighted = set.eval_with_coefficients(p, vec![F(1.0); set.num_sh()]);
            assert_eq!(plain.len(), weighted.len());
            for (a, b) in plain.iter().zip(weighted.iter()) {
                assert_eq!(a.0, b.0);
            }
        }
        for kind in [ComplexSH::Spherical, ComplexSH::RegularSolid, ComplexSH::IrregularSolid] {
            let set: HarmonicsSet<F, ComplexSH> = HarmonicsSet::new(5, kind);
            let plain = set.eval(p);
            let one = Complex::new(F(1.0), F(0.0));
            let weighted = set.eval_with_coefficients(p, vec![one; set.num_sh()]);
            assert_eq!(plain.len(), weighted.len());
            for (a, b) in plain.iter().zip(weighted.iter()) {
                assert_eq!(a.re.0, b.re.0);
                assert_eq!(a.im.0, b.im.0);
            }
        }
    }
}

#[test]
fn coefficients_multiply_entry_by_entry() {
    let p = cartesian(0.3, -1.2, 0.8);
    let set: HarmonicsSet<F, RealSH> = HarmonicsSet::new(3, RealSH::Spherical);
    let coefficients: Vec<F> = (0..set.num_sh()).map(|i| F(i as f64 - 4.5)).collect();
    let plain = set.eval(&p);
    let weighted = set.eval_with_coefficients(&p, coefficients.clone());
    assert_eq!(weighted.len(), 16);
    for i in 0..16 {
        assert_eq!(weighted[i].0, plain[i].0 * coefficients[i].0);
    }

    let set: HarmonicsSet<F, ComplexSH> = HarmonicsSet::new(2, ComplexSH::Spherical);
    let coefficients: Vec<Complex<F>> =
        (0..set.num_sh()).map(|i| Complex::new(F(i as f64), F(2.0 - i as f64))).collect();
    let plain = set.eval(&p);
    let weighted = set.eval_with_coefficients(&p, coefficients.clone());
    assert_eq!(weighted.len(), 9);
    for i in 0..9 {
        let (a, b) = (plain[i].re.0, plain[i].im.0);
        let (c, d) = (coefficients[i].re.0, coefficients[i].im.0);
        assert_eq!(weighted[i].re.0, a * c - b * d);
        assert_eq!(weighted[i].im.0, a * d + b * c);
    }
}

#[test]
fn complex_product_follows_the_rule() {
    let z = Complex::new(F(1.0), F(2.0)).mul(Complex::new(F(3.0), F(4.0)));
    assert_eq!(z.re.0, -5.0);
    assert_eq!(z.im.0, 10.0);
    let z = Complex::new(F(1.5), F(-2.0)).scale(F(4.0));
    assert_eq!(z.re.0, 6.0);
    assert_eq!(z.im.0, -8.0);
}

#[test]
fn cartesian_coordinates_give_spherical_ones() {
    let p = cartesian(1.0, 2.0, 2.0);
    assert_eq!(p.x().0, 1.0);
    assert_eq!(p.y().0, 2.0);
    assert_eq!(p.z().0, 2.0);
    assert_eq!(p.r().0, 3.0);
    assert_eq!(p.theta().0, (2.0f64 / 3.0).acos());
    assert_eq!(p.phi().0, 2.0f64.atan2(1.0));
    assert_eq!(p.theta_cos().0, (2.0f64 / 3.0).acos().cos());

    let p = cartesian(-1.0, 0.0, 0.0);
    assert!(close(p.phi().0, PI, 1e-15));
    assert!(close(p.theta().0, PI / 2.0, 1e-15));
    let p = cartesian(-1.0, -1.0, 0.0);
    assert!(close(p.phi().0, -3.0 * PI / 4.0, 1e-15));
}

#[test]
fn spherical_coordinates_give_cartesian_ones() {
    let (r, theta, phi) = (2.0f64, 0.7f64, -1.9f64);
    let p = spherical(r, theta, phi);
    assert_eq!(p.r().0, r);
    assert_eq!(p.theta().0, theta);
    assert_eq!(p.phi().0, phi);
    assert_eq!(p.x().0, r * theta.sin() * phi.cos());
    assert_eq!(p.y().0, r * theta.sin() * phi.sin());
    assert_eq!(p.z().0, r * theta.cos());
    assert_eq!(p.theta_cos().0, theta.cos());
}

#[test]
fn coordinates_round_trip() {
    for &r in &[0.1, 1.0, 7.5, 1234.0] {
        for &theta in &[0.1, 0.8, PI / 2.0, 2.4, 3.0] {
            for &phi in &[-3.0, -1.2, 0.0, 0.4, 2.9] {
                let p = spherical(r, theta, phi);
                let q = cartesian(p.x().0, p.y().0, p.z().0);
                assert!(close(q.r().0, r, 1e-13));
                assert!(close(q.theta().0, theta, 1e-13));
                assert!(close(q.phi().0, phi, 1e-13));
                assert!(close(q.theta_cos().0, p.theta_cos().0, 1e-13));
            }
        }
    }
}

#[test]
fn copies_of_a_position_agree() {
    let p = cartesian(1.0, 2.0, 2.0);
    let q = p;
    let c = p.clone();
    assert_eq!(q.r().0, 3.0);
    assert_eq!(c.r().0, p.r().0);
    assert_eq!(c.phi().0, p.phi().0);
}
