//! All harmonics up to a given degree at once, in the canonical order.
use vstd::prelude::*;
use core::marker::PhantomData;
use crate::coordinates::{Position, SHCoordinates};
use crate::float::SphrsFloat;
use crate::sh::legendre::MAX_DEGREE;
use crate::sh::{RealSH, SHEval};

verus! {

/// The number of harmonics of degree at most `degree`: `(degree + 1)^2`.
pub open spec fn count_up_to(degree: int) -> int {
    (degree + 1) * (degree + 1)
}

/// The index of the harmonic of degree `l` and order `m` in the canonical
/// order, which lists the degrees in ascending order and, within a degree,
/// the orders from `-l` up to `l`.
pub open spec fn index_of(l: int, m: int) -> int {
    l * l + l + m
}

/// The degree of the harmonic at index `i` of the canonical order: the
/// largest `d` with `d^2 <= i`.
pub open spec fn degree_at(i: int) -> int
    decreases i,
{
    if i <= 0 {
        0
    } else {
        let d = degree_at(i - 1);
        if (d + 1) * (d + 1) <= i {
            d + 1
        } else {
            d
        }
    }
}

/// The order of the harmonic at index `i` of the canonical order.
pub open spec fn order_at(i: int) -> int {
    i - degree_at(i) * degree_at(i) - degree_at(i)
}

/// The sum of the sizes `2 o + 1` of the bands `o = 0, ..., degree`.
pub open spec fn band_total(degree: int) -> int
    decreases degree,
{
    if degree <= 0 {
        1
    } else {
        band_total(degree - 1) + 2 * degree + 1
    }
}

/// The harmonics of kind `kind` up to degree `degree` at `p`, in the
/// canonical order: the entry at index `i` is the harmonic of degree
/// `degree_at(i)` and order `order_at(i)`.
pub open spec fn harmonics<T: SphrsFloat, E: SHEval<T>>(
    kind: E,
    degree: int,
    q: Position<T>,
) -> Seq<E::Output> {
    Seq::new(count_up_to(degree) as nat, |i: int| kind.spec_eval(degree_at(i), order_at(i), q))
}

/// The entrywise product of harmonic values and coefficients.
pub open spec fn weighted_by<T: SphrsFloat, E: SHEval<T>>(
    values: Seq<E::Output>,
    coefficients: Seq<E::Output>,
) -> Seq<E::Output> {
    Seq::new(values.len(), |i: int| E::spec_weighted(values[i], coefficients[i]))
}

/// The degree at an index is the one whose band holds the index.
pub proof fn lemma_degree_at_brackets(i: int)
    requires
        0 <= i,
    ensures
        0 <= degree_at(i),
        degree_at(i) * degree_at(i) <= i < (degree_at(i) + 1) * (degree_at(i) + 1),
    decreases i,
{
    if i > 0 {
        lemma_degree_at_brackets(i - 1);
        let d = degree_at(i - 1);
        assert((d + 2) * (d + 2) == (d + 1) * (d + 1) + 2 * d + 3) by (nonlinear_arith);
        assert((d + 1) * (d + 1) == d * d + 2 * d + 1) by (nonlinear_arith);
    }
}

/// Squares of natural numbers grow with the numbers.
proof fn lemma_square_monotonic(a: int, b: int)
    requires
        0 <= a <= b,
    ensures
        a * a <= b * b,
{
    assert(a * a <= b * b) by (nonlinear_arith)
        requires
            0 <= a <= b,
    ;
}

/// The canonical order places the harmonic of degree `l` and order `m` at
/// index `l^2 + l + m`, and no other harmonic there: reading the degree and
/// the order back from that index gives `l` and `m`.
pub proof fn lemma_index_round_trip(l: int, m: int)
    requires
        0 <= l,
        -l <= m <= l,
    ensures
        0 <= index_of(l, m),
        degree_at(index_of(l, m)) == l,
        order_at(index_of(l, m)) == m,
{
    let i = index_of(l, m);
    assert(l * l <= i < (l + 1) * (l + 1)) by (nonlinear_arith)
        requires
            i == l * l + l + m,
            -l <= m <= l,
    ;
    assert(0 <= l * l) by (nonlinear_arith);
    lemma_degree_at_brackets(i);
    let d = degree_at(i);
    if d < l {
        lemma_square_monotonic(d + 1, l);
    } else if d > l {
        lemma_square_monotonic(l + 1, d);
    }
}

/// Every index below `(degree + 1)^2` holds a harmonic of degree at most
/// `degree` and of an order within that degree.
pub proof fn lemma_index_in_range(degree: int, i: int)
    requires
        0 <= degree,
        0 <= i < count_up_to(degree),
    ensures
        0 <= degree_at(i) <= degree,
        -degree_at(i) <= order_at(i) <= degree_at(i),
        index_of(degree_at(i), order_at(i)) == i,
{
    lemma_degree_at_brackets(i);
    let d = degree_at(i);
    if d > degree {
        lemma_square_monotonic(degree + 1, d);
    }
    assert((d + 1) * (d + 1) == d * d + 2 * d + 1) by (nonlinear_arith);
}

/// The bands of degree `0` to `degree` hold `(degree + 1)^2` harmonics in
/// all: `1 + 3 + ... + (2 degree + 1) = (degree + 1)^2`.
pub proof fn lemma_band_total(degree: int)
    requires
        0 <= degree,
    ensures
        band_total(degree) == count_up_to(degree),
    decreases degree,
{
    if degree > 0 {
        lemma_band_total(degree - 1);
        assert(count_up_to(degree - 1) == degree * degree);
        assert((degree + 1) * (degree + 1) == degree * degree + 2 * degree + 1)
            by (nonlinear_arith);
    } else {
        assert(count_up_to(0) == 1);
    }
}

/// The canonical order of a set: the harmonic of degree `l` and order `m`
/// stands at index `l^2 + l + m`, for every degree up to that of the set and
/// every order of that degree.
pub proof fn lemma_harmonics_in_order<T: SphrsFloat, E: SHEval<T>>(
    kind: E,
    degree: int,
    q: Position<T>,
    l: int,
    m: int,
)
    requires
        0 <= l <= degree,
        -l <= m <= l,
    ensures
        0 <= index_of(l, m) < harmonics::<T, E>(kind, degree, q).len(),
        harmonics::<T, E>(kind, degree, q)[index_of(l, m)] == kind.spec_eval(l, m, q),
{
    lemma_index_round_trip(l, m);
    lemma_square_monotonic(l + 1, degree + 1);
    assert(index_of(l, m) < (l + 1) * (l + 1)) by (nonlinear_arith)
        requires
            m <= l,
    ;
}

/// Coefficients that are units of the product leave every harmonic as it
/// is: evaluating with them gives what evaluating without coefficients gives.
///
/// A coefficient `c` is a unit when `v * c = v` for every value `v`.
pub proof fn lemma_unit_coefficients<T: SphrsFloat, E: SHEval<T>>(
    kind: E,
    degree: int,
    q: Position<T>,
    coefficients: Seq<E::Output>,
)
    requires
        coefficients.len() == harmonics::<T, E>(kind, degree, q).len(),
        forall|i: int, v: E::Output|
            0 <= i < coefficients.len() ==> #[trigger] E::spec_weighted(v, coefficients[i]) == v,
    ensures
        weighted_by::<T, E>(harmonics::<T, E>(kind, degree, q), coefficients) == harmonics::<T, E>(
            kind,
            degree,
            q,
        ),
{
    assert(weighted_by::<T, E>(harmonics::<T, E>(kind, degree, q), coefficients)
        =~= harmonics::<T, E>(kind, degree, q));
}

/// For the real family the coefficient one is a unit as soon as one is a
/// right identity of the scalar's product. Then coefficients that are all
/// one leave the real harmonics as they are.
pub proof fn lemma_ones_leave_real_harmonics<T: SphrsFloat>(
    kind: RealSH,
    degree: int,
    q: Position<T>,
    coefficients: Seq<T>,
)
    requires
        coefficients.len() == harmonics::<T, RealSH>(kind, degree, q).len(),
        forall|i: int| 0 <= i < coefficients.len() ==> coefficients[i] == T::one(),
        forall|v: T| #[trigger] v.mul(T::one()) == v,
    ensures
        weighted_by::<T, RealSH>(harmonics::<T, RealSH>(kind, degree, q), coefficients)
            == harmonics::<T, RealSH>(kind, degree, q),
{
    lemma_unit_coefficients::<T, RealSH>(kind, degree, q, coefficients);
}

/// A set of spherical or solid harmonics: every harmonic of one kind up to a
/// given degree.
pub struct HarmonicsSet<T: SphrsFloat, E: SHEval<T>> {
    degree: usize,
    num_sh: usize,
    sh: E,
    scalar: PhantomData<T>,
}

impl<T: SphrsFloat, E: SHEval<T>> HarmonicsSet<T, E> {
    /// The number of harmonics is `(degree + 1)^2`.
    #[verifier::type_invariant]
    spec fn well_formed(&self) -> bool {
        self.num_sh == count_up_to(self.degree as int)
    }

    /// The largest degree of the set.
    pub closed spec fn spec_degree(&self) -> int {
        self.degree as int
    }

    /// The kind of harmonic of the set.
    pub closed spec fn spec_kind(&self) -> E {
        self.sh
    }

    /// The set of the harmonics of kind `sh_type` up to degree `degree`.
    ///
    /// The number of harmonics, `(degree + 1)^2`, has to be a `usize`.
    pub fn new(degree: usize, sh_type: E) -> (set: HarmonicsSet<T, E>)
        requires
            count_up_to(degree as int) <= usize::MAX,
        ensures
            set.spec_degree() == degree,
            set.spec_kind() == sh_type,
    {
        proof {
            lemma_count_bounds_degree(degree as int);
        }
        let width: usize = degree + 1;
        assert(width * width == count_up_to(degree as int));
        HarmonicsSet { degree, num_sh: width * width, sh: sh_type, scalar: PhantomData }
    }

    /// The largest degree of the set.
    pub fn degree(&self) -> (out: usize)
        ensures
            out == self.spec_degree(),
    {
        self.degree
    }

    /// The number of harmonics in the set: `(degree + 1)^2`.
    pub fn num_sh(&self) -> (out: usize)
        ensures
            out == count_up_to(self.spec_degree()),
    {
        proof {
            use_type_invariant(self);
        }
        self.num_sh
    }

    /// Evaluates every harmonic of the set at `p`. The result lists them in
    /// the canonical order and so has `(degree + 1)^2` entries.
    pub fn eval<C: SHCoordinates<T>>(&self, p: &C) -> (values: Vec<E::Output>)
        ensures
            values@ == harmonics::<T, E>(self.spec_kind(), self.spec_degree(), p.position()),
            values@.len() == count_up_to(self.spec_degree()),
    {
        self.eval_internal(p)
    }

    /// Evaluates every harmonic of the set at `p` and multiplies each by the
    /// coefficient at the same index.
    ///
    /// There has to be one coefficient for each harmonic.
    pub fn eval_with_coefficients<C: SHCoordinates<T>>(
        &self,
        p: &C,
        coefficients: Vec<E::Output>,
    ) -> (values: Vec<E::Output>)
        requires
            coefficients@.len() == count_up_to(self.spec_degree()),
        ensures
            values@ == weighted_by::<T, E>(
                harmonics::<T, E>(self.spec_kind(), self.spec_degree(), p.position()),
                coefficients@,
            ),
            values@.len() == count_up_to(self.spec_degree()),
    {
        let plain = self.eval_internal(p);
        let ghost expected = weighted_by::<T, E>(plain@, coefficients@);
        let mut values: Vec<E::Output> = Vec::with_capacity(plain.len());
        let mut i: usize = 0;
        while i < plain.len()
            invariant
                0 <= i <= plain@.len(),
                plain@.len() == coefficients@.len(),
                expected == weighted_by::<T, E>(plain@, coefficients@),
                values@.len() == i,
                forall|j: int| 0 <= j < i ==> values@[j] == expected[j],
            decreases plain@.len() - i,
        {
            values.push(E::weighted(plain[i], coefficients[i]));
            i = i + 1;
        }
        assert(values@ =~= expected);
        values
    }

    /// Walks the degrees in ascending order and, within each degree, the
    /// orders in ascending order.
    fn eval_internal<C: SHCoordinates<T>>(&self, p: &C) -> (values: Vec<E::Output>)
        ensures
            values@ == harmonics::<T, E>(self.spec_kind(), self.spec_degree(), p.position()),
            values@.len() == count_up_to(self.spec_degree()),
    {
        proof {
            use_type_invariant(self);
            lemma_count_bounds_degree(self.degree as int);
        }
        let ghost expected = harmonics::<T, E>(self.sh, self.degree as int, p.position());
        let mut values: Vec<E::Output> = Vec::with_capacity(self.num_sh);
        let mut l: usize = 0;
        while l <= self.degree
            invariant
                0 <= l <= self.degree + 1,
                self.degree < 0x1_0000_0000,
                self.degree < usize::MAX,
                expected == harmonics::<T, E>(self.sh, self.degree as int, p.position()),
                values@.len() == l * l,
                values@.len() <= expected.len(),
                forall|j: int| 0 <= j < values@.len() ==> values@[j] == expected[j],
            decreases self.degree + 1 - l,
        {
            let degree: i64 = l as i64;
            let mut m: i64 = -degree;
            while m <= degree
                invariant
                    degree == l,
                    0 <= l <= self.degree < 0x1_0000_0000,
                    -degree <= m <= degree + 1,
                    expected == harmonics::<T, E>(self.sh, self.degree as int, p.position()),
                    values@.len() == index_of(l as int, m as int),
                    values@.len() <= expected.len(),
                    forall|j: int| 0 <= j < values@.len() ==> values@[j] == expected[j],
                decreases degree + 1 - m,
            {
                proof {
                    lemma_index_round_trip(degree as int, m as int);
                    lemma_square_monotonic(degree + 1, self.degree + 1);
                    assert(index_of(degree as int, m as int) < (degree + 1) * (degree + 1))
                        by (nonlinear_arith)
                        requires
                            m <= degree,
                    ;
                }
                let value = self.sh.eval(degree, m, p);
                values.push(value);
                m = m + 1;
            }
            assert((l + 1) * (l + 1) == index_of(l as int, l + 1)) by (nonlinear_arith);
            l = l + 1;
            assert(l * l == index_of(l as int, -(l as int))) by (nonlinear_arith);
            proof {
                lemma_square_monotonic(l as int, self.degree + 1);
            }
        }
        assert(values@ =~= expected);
        values
    }
}

/// A set whose size is a `usize` has a degree below `2^32`.
proof fn lemma_count_bounds_degree(degree: int)
    requires
        0 <= degree,
        count_up_to(degree) <= usize::MAX,
    ensures
        degree < 0x1_0000_0000,
        degree < usize::MAX,
{
    assert(degree + 1 <= (degree + 1) * (degree + 1)) by (nonlinear_arith)
        requires
            0 <= degree,
    ;
    if degree >= 0x1_0000_0000 {
        lemma_square_monotonic(0x1_0000_0001, degree + 1);
        assert(0x1_0000_0001int * 0x1_0000_0001int > 0xffff_ffff_ffff_ffff) by (nonlinear_arith);
    }
}

} // verus!
