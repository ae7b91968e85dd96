//! The scalar type over which every harmonic is computed.
//!
//! The library never looks inside a scalar. It only combines scalars through
//! the operations of [`SphrsFloat`], and every contract in the crate states a
//! result as a term built from these operations. Such a term fixes which
//! operations are applied to which operands and in which order, so for a
//! floating-point scalar it fixes the result down to the last bit.
use vstd::prelude::*;

verus! {

/// A floating-point-like scalar: arithmetic, square root, the trigonometric
/// functions the harmonics need, integer powers, conversion from integers and
/// the constants `pi`, `1/pi` and `sqrt(2)`.
///
/// Each operation comes as a pair: a specification function that names the
/// value, and an executable method that returns exactly that value. This asks
/// of an implementation that every operation is a function of its operands
/// alone. Nothing else is asked: no operation has a precondition, and no
/// algebraic law (associativity, exact rounding, ...) is assumed anywhere
/// unless a lemma lists it among its hypotheses.
pub trait SphrsFloat: Copy {
    /// The sum `self + rhs`.
    spec fn spec_add(self, rhs: Self) -> Self;

    /// The difference `self - rhs`.
    spec fn spec_sub(self, rhs: Self) -> Self;

    /// The product `self * rhs`.
    spec fn spec_mul(self, rhs: Self) -> Self;

    /// The quotient `self / rhs`.
    spec fn spec_div(self, rhs: Self) -> Self;

    /// The negation `-self`.
    spec fn spec_neg(self) -> Self;

    /// The square root of `self`.
    spec fn spec_sqrt(self) -> Self;

    /// The sine of `self` (in radians).
    spec fn spec_sin(self) -> Self;

    /// The cosine of `self` (in radians).
    spec fn spec_cos(self) -> Self;

    /// The arccosine of `self`, in `[0, pi]`.
    spec fn spec_acos(self) -> Self;

    /// The four-quadrant arctangent of `self / other`.
    spec fn spec_atan2(self, other: Self) -> Self;

    /// `self` raised to the integer power `n`.
    spec fn spec_powi(self, n: i64) -> Self;

    /// The scalar that stands for the integer `n`.
    spec fn spec_from_i64(n: i64) -> Self;

    /// The multiplicative unit.
    spec fn spec_one() -> Self;

    /// Archimedes' constant.
    spec fn spec_pi() -> Self;

    /// The reciprocal of Archimedes' constant.
    spec fn spec_frac_1_pi() -> Self;

    /// The square root of two.
    spec fn spec_sqrt_2() -> Self;

    /// Adds two scalars.
    #[verifier::when_used_as_spec(spec_add)]
    fn add(self, rhs: Self) -> (out: Self)
        ensures
            out == self.spec_add(rhs),
    ;

    /// Subtracts `rhs` from `self`.
    #[verifier::when_used_as_spec(spec_sub)]
    fn sub(self, rhs: Self) -> (out: Self)
        ensures
            out == self.spec_sub(rhs),
    ;

    /// Multiplies two scalars.
    #[verifier::when_used_as_spec(spec_mul)]
    fn mul(self, rhs: Self) -> (out: Self)
        ensures
            out == self.spec_mul(rhs),
    ;

    /// Divides `self` by `rhs`. Division by zero gives what the scalar makes of it.
    #[verifier::when_used_as_spec(spec_div)]
    fn div(self, rhs: Self) -> (out: Self)
        ensures
            out == self.spec_div(rhs),
    ;

    /// Negates a scalar.
    #[verifier::when_used_as_spec(spec_neg)]
    fn neg(self) -> (out: Self)
        ensures
            out == self.spec_neg(),
    ;

    /// Takes the square root.
    #[verifier::when_used_as_spec(spec_sqrt)]
    fn sqrt(self) -> (out: Self)
        ensures
            out == self.spec_sqrt(),
    ;

    /// Takes the sine.
    #[verifier::when_used_as_spec(spec_sin)]
    fn sin(self) -> (out: Self)
        ensures
            out == self.spec_sin(),
    ;

    /// Takes the cosine.
    #[verifier::when_used_as_spec(spec_cos)]
    fn cos(self) -> (out: Self)
        ensures
            out == self.spec_cos(),
    ;

    /// Takes the arccosine.
    #[verifier::when_used_as_spec(spec_acos)]
    fn acos(self) -> (out: Self)
        ensures
            out == self.spec_acos(),
    ;

    /// Takes the four-quadrant arctangent of `self / other`.
    #[verifier::when_used_as_spec(spec_atan2)]
    fn atan2(self, other: Self) -> (out: Self)
        ensures
            out == self.spec_atan2(other),
    ;

    /// Integer power. The exponent is a 64-bit integer so that every degree
    /// the library accepts can be used as one.
    #[verifier::when_used_as_spec(spec_powi)]
    fn powi(self, n: i64) -> (out: Self)
        ensures
            out == self.spec_powi(n),
    ;

    /// Converts a machine integer.
    #[verifier::when_used_as_spec(spec_from_i64)]
    fn from_i64(n: i64) -> (out: Self)
        ensures
            out == Self::spec_from_i64(n),
    ;

    /// Gives the multiplicative unit.
    #[verifier::when_used_as_spec(spec_one)]
    fn one() -> (out: Self)
        ensures
            out == Self::spec_one(),
    ;

    /// Gives Archimedes' constant.
    #[verifier::when_used_as_spec(spec_pi)]
    fn pi() -> (out: Self)
        ensures
            out == Self::spec_pi(),
    ;

    /// Gives the reciprocal of Archimedes' constant.
    #[verifier::when_used_as_spec(spec_frac_1_pi)]
    fn frac_1_pi() -> (out: Self)
        ensures
            out == Self::spec_frac_1_pi(),
    ;

    /// Gives the square root of two.
    #[verifier::when_used_as_spec(spec_sqrt_2)]
    fn sqrt_2() -> (out: Self)
        ensures
            out == Self::spec_sqrt_2(),
    ;
}

/// The scalar that stands for the mathematical integer `n`. Every integer
/// the library converts lies within the 64-bit range.
pub open spec fn from_int<T: SphrsFloat>(n: int) -> T {
    T::from_i64(n as i64)
}

/// `base` raised to the mathematical integer power `n`.
pub open spec fn pow_int<T: SphrsFloat>(base: T, n: int) -> T {
    base.powi(n as i64)
}

/// `n` has magnitude at most `bound`.
pub open spec fn within(bound: int, n: int) -> bool {
    -bound <= n <= bound
}

/// The scalar computes exactly with the integers of magnitude at most
/// `bound`: one is the integer 1, and a difference, a product or an exact
/// quotient of two such integers is the integer it should be, as long as it
/// stays within the bound.
///
/// No scalar has to satisfy this. Binary floating-point numbers with a
/// significand of `p` bits do for every bound up to `2^p`.
pub open spec fn exact_on_integers<T: SphrsFloat>(bound: int) -> bool {
    &&& T::one() == T::from_i64(1)
    &&& forall|a: i64, b: i64|
        within(bound, a as int) && within(bound, b as int) && within(bound, a - b)
            ==> #[trigger] T::from_i64(a).sub(T::from_i64(b)) == from_int::<T>(a - b)
    &&& forall|a: i64, b: i64|
        within(bound, a as int) && within(bound, b as int) && within(bound, a * b)
            ==> #[trigger] T::from_i64(a).mul(T::from_i64(b)) == from_int::<T>(a * b)
    &&& forall|a: i64, b: i64|
        within(bound, a as int) && within(bound, b as int) && b != 0 && a % b == 0
            ==> #[trigger] T::from_i64(a).div(T::from_i64(b)) == from_int::<T>(a / b)
}

/// The rational constant `n / d` as the scalar computes it: the quotient of
/// the two converted integers.
pub open spec fn ratio<T: SphrsFloat>(n: int, d: int) -> T {
    from_int::<T>(n).div(from_int::<T>(d))
}

/// Computes the rational constant `n / d`.
pub fn make_ratio<T: SphrsFloat>(n: i64, d: i64) -> (out: T)
    ensures
        out == ratio::<T>(n as int, d as int),
{
    T::from_i64(n).div(T::from_i64(d))
}

} // verus!
