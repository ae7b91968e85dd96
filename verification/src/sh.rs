//! The harmonic evaluators.
mod complex_harmonics;
mod hardcoded;
mod harmonicsset;
mod kinds;
mod legendre;
mod real_harmonics;

pub use self::complex_harmonics::{
    complex_harmonic, complex_irregular_solid, complex_regular_solid, irregular_solid_SH,
    lemma_complex_solid_scaling, order_sign, regular_solid_SH, SH,
};
pub use self::hardcoded::{
    axial_excess, closed_form, prefactor, sh00, sh10, sh1n1, sh1p1, sh20, sh2n1, sh2n2, sh2p1,
    sh2p2, sh30, sh3n1, sh3n2, sh3n3, sh3p1, sh3p2, sh3p3, square_difference,
};
pub use self::harmonicsset::{
    band_total, count_up_to, degree_at, harmonics, index_of, lemma_band_total,
    lemma_degree_at_brackets, lemma_harmonics_in_order, lemma_index_in_range,
    lemma_index_round_trip, lemma_ones_leave_real_harmonics, lemma_unit_coefficients, order_at,
    weighted_by, HarmonicsSet,
};
pub use self::kinds::{ComplexSH, RealSH, SHEval};
pub use self::legendre::{
    divided_through, factorial, legendre, legendre_diagonal, lemma_factorial_quotient,
    lemma_legendre_at_one, lemma_normalization_symmetric, magnitude, normalization,
    product_between, sine_of, valid_pair, K, MAX_DEGREE, P,
};
pub use self::real_harmonics::{
    irregular_scaling, lemma_real_solid_scaling, lemma_real_solid_unscaled, real_SH,
    real_SH_hardcoded, real_harmonic, real_irregular_solid, real_irregular_solid_SH,
    real_regular_solid, real_regular_solid_SH, real_spherical, regular_scaling, solid_factor,
};
