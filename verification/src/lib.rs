//! Real and complex spherical harmonics and solid harmonics, generic over the
//! scalar type and verified with Verus.
mod complex;
mod coordinates;
mod float;
mod sh;

pub use crate::complex::{complex_product, complex_scaled, Complex};
pub use crate::coordinates::{
    from_cartesian, from_spherical, polar_angle, radius, Coordinates, Position, SHCoordinates,
};
pub use crate::float::{exact_on_integers, from_int, make_ratio, pow_int, ratio, within, SphrsFloat};
pub use crate::sh::{
    axial_excess, band_total, closed_form, complex_harmonic, complex_irregular_solid,
    complex_regular_solid, count_up_to, degree_at, divided_through, factorial, harmonics,
    index_of, irregular_scaling, irregular_solid_SH, legendre, legendre_diagonal,
    lemma_band_total, lemma_complex_solid_scaling, lemma_degree_at_brackets,
    lemma_factorial_quotient, lemma_harmonics_in_order, lemma_index_in_range,
    lemma_index_round_trip, lemma_legendre_at_one, lemma_normalization_symmetric,
    lemma_ones_leave_real_harmonics, lemma_real_solid_scaling, lemma_real_solid_unscaled,
    lemma_unit_coefficients, magnitude, normalization, order_at, order_sign, prefactor,
    product_between, real_SH, real_SH_hardcoded, real_harmonic, real_irregular_solid,
    real_irregular_solid_SH, real_regular_solid, real_regular_solid_SH, real_spherical,
    regular_scaling, regular_solid_SH, sh00, sh10, sh1n1, sh1p1, sh20, sh2n1, sh2n2, sh2p1,
    sh2p2, sh30, sh3n1, sh3n2, sh3n3, sh3p1, sh3p2, sh3p3, sine_of, solid_factor,
    square_difference, valid_pair, weighted_by, ComplexSH, HarmonicsSet, K, MAX_DEGREE, P,
    RealSH, SH, SHEval,
};
