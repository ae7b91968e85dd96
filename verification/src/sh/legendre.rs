//! The two ingredients of every harmonic that is not given in closed form:
//! the normalization constant `K(l, m)` and the associated Legendre
//! polynomial `P(l, m, x)`.
use vstd::prelude::*;
use crate::float::{exact_on_integers, from_int, SphrsFloat};

verus! {

/// The largest degree the evaluators accept: the largest `l` for which
/// `2 l + 1` is a 64-bit signed integer.
pub const MAX_DEGREE: i64 = 4611686018427387903;

/// A degree `l` and an order `m` form a pair when `0 <= l` and
/// `-l <= m <= l`; the degree is also at most [`MAX_DEGREE`].
pub open spec fn valid_pair(l: int, m: int) -> bool {
    0 <= l <= MAX_DEGREE && -l <= m <= l
}

/// The magnitude of an order.
pub open spec fn magnitude(m: int) -> int {
    if m < 0 {
        -m
    } else {
        m
    }
}

/// The factorial `n!`.
pub open spec fn factorial(n: nat) -> nat
    decreases n,
{
    if n == 0 {
        1
    } else {
        n * factorial((n - 1) as nat)
    }
}

/// The product of the integers `lo + 1, lo + 2, ..., hi`.
pub open spec fn product_between(lo: int, hi: int) -> int
    decreases hi - lo,
{
    if hi <= lo {
        1
    } else {
        product_between(lo, hi - 1) * hi
    }
}

/// `start` divided in turn by each of the integers `lo + 1, lo + 2, ..., hi`.
pub open spec fn divided_through<T: SphrsFloat>(start: T, lo: int, hi: int) -> T
    decreases hi - lo,
{
    if hi <= lo {
        start
    } else {
        divided_through(start, lo, hi - 1).div(from_int::<T>(hi))
    }
}

/// The normalization constant
/// `K(l, m) = sqrt((2 l + 1) (l - |m|)! / (4 pi (l + |m|)!))`.
///
/// The quotient of the two factorials is never formed from the factorials
/// themselves, which would leave the range of any machine number at moderate
/// degree. Instead `(2 l + 1) / (4 pi)` is divided in turn by each factor
/// `l - |m| + 1, ..., l + |m|` by which the larger factorial exceeds the
/// smaller.
pub open spec fn normalization<T: SphrsFloat>(l: int, m: int) -> T {
    divided_through(
        from_int::<T>(2 * l + 1).div(from_int::<T>(4).mul(T::pi())),
        l - magnitude(m),
        l + magnitude(m),
    ).sqrt()
}

/// `sqrt((1 - x) (1 + x))`, which is `sin(theta)` at `x = cos(theta)`.
pub open spec fn sine_of<T: SphrsFloat>(x: T) -> T {
    T::one().sub(x).mul(T::one().add(x)).sqrt()
}

/// The associated Legendre polynomial of equal degree and order,
/// `P(m, m, x) = (-1)^m (2 m - 1)!! (1 - x^2)^(m/2)`, built one odd factor at
/// a time: `P(0, 0, x) = 1` and
/// `P(m, m, x) = P(m - 1, m - 1, x) * (-(2 m - 1)) * sqrt(1 - x^2)`.
pub open spec fn legendre_diagonal<T: SphrsFloat>(m: int, x: T) -> T
    decreases m,
{
    if m <= 0 {
        T::one()
    } else {
        legendre_diagonal(m - 1, x).mul(from_int::<T>(2 * m - 1).neg()).mul(sine_of(x))
    }
}

/// The associated Legendre polynomial `P(l, m, x)` for `0 <= m <= l`, by the
/// upward recurrence in the degree:
///
/// - `P(m, m, x)` is [`legendre_diagonal`];
/// - `P(m + 1, m, x) = x (2 m + 1) P(m, m, x)`;
/// - `P(l, m, x) = ((2 l - 1) x P(l - 1, m, x) - (l + m - 1) P(l - 2, m, x)) / (l - m)`.
pub open spec fn legendre<T: SphrsFloat>(l: int, m: int, x: T) -> T
    decreases l - m,
{
    if l <= m {
        legendre_diagonal(m, x)
    } else if l == m + 1 {
        x.mul(from_int::<T>(2 * m + 1)).mul(legendre_diagonal(m, x))
    } else {
        from_int::<T>(2 * l - 1).mul(x).mul(legendre(l - 1, m, x)).sub(
            from_int::<T>(l + m - 1).mul(legendre(l - 2, m, x)),
        ).div(from_int::<T>(l - m))
    }
}

/// The normalization constant of degree `l` and order `m`. Only the
/// magnitude of the order matters.
#[allow(non_snake_case)]
pub fn K<T: SphrsFloat>(l: i64, m: i64) -> (out: T)
    requires
        valid_pair(l as int, m as int),
    ensures
        out == normalization::<T>(l as int, m as int),
{
    let a: i64 = if m < 0 {
        -m
    } else {
        m
    };
    let start = T::from_i64(2 * l + 1).div(T::from_i64(4).mul(T::pi()));
    let mut acc = start;
    let mut k: i64 = l - a;
    while k < l + a
        invariant
            0 <= a <= l <= MAX_DEGREE,
            l - a <= k <= l + a,
            acc == divided_through(start, l - a, k as int),
        decreases l + a - k,
    {
        k = k + 1;
        acc = acc.div(T::from_i64(k));
    }
    acc.sqrt()
}

/// The associated Legendre polynomial of degree `l` and order `m` at `x`.
/// The order is not negative: a caller with a negative order passes its
/// magnitude. `x` is the cosine of a polar angle, so it lies in `[-1, 1]`.
#[allow(non_snake_case)]
pub fn P<T: SphrsFloat>(l: i64, m: i64, x: T) -> (out: T)
    requires
        0 <= m <= l <= MAX_DEGREE,
    ensures
        out == legendre(l as int, m as int, x),
{
    let somx2 = T::one().sub(x).mul(T::one().add(x)).sqrt();
    let mut pmm = T::one();
    let mut k: i64 = 0;
    while k < m
        invariant
            0 <= k <= m <= MAX_DEGREE,
            somx2 == sine_of(x),
            pmm == legendre_diagonal(k as int, x),
        decreases m - k,
    {
        k = k + 1;
        pmm = pmm.mul(T::from_i64(2 * k - 1).neg()).mul(somx2);
    }
    if l == m {
        return pmm;
    }
    let mut pmmp1 = x.mul(T::from_i64(2 * m + 1)).mul(pmm);
    let mut ll: i64 = m + 1;
    while ll < l
        invariant
            0 <= m < ll <= l <= MAX_DEGREE,
            pmm == legendre(ll - 1, m as int, x),
            pmmp1 == legendre(ll as int, m as int, x),
        decreases l - ll,
    {
        ll = ll + 1;
        let pll = T::from_i64(2 * ll - 1).mul(x).mul(pmmp1).sub(
            T::from_i64(ll + m - 1).mul(pmm),
        ).div(T::from_i64(ll - m));
        pmm = pmmp1;
        pmmp1 = pll;
    }
    pmmp1
}

/// The normalization constant depends on the order only through its
/// magnitude: `K(l, m) = K(l, -m)`.
pub proof fn lemma_normalization_symmetric<T: SphrsFloat>(l: int, m: int)
    ensures
        normalization::<T>(l, m) == normalization::<T>(l, -m),
{
}

/// The integers `lo + 1, ..., hi` are the factors by which `hi!` exceeds
/// `lo!`. So [`normalization`], which divides by each of the integers
/// `l - |m| + 1, ..., l + |m|`, divides by `(l + |m|)! / (l - |m|)!` in all.
pub proof fn lemma_factorial_quotient(lo: nat, hi: nat)
    requires
        lo <= hi,
    ensures
        factorial(lo) * product_between(lo as int, hi as int) == factorial(hi),
    decreases hi,
{
    if lo < hi {
        lemma_factorial_quotient(lo, (hi - 1) as nat);
        let a = factorial(lo) as int;
        let b = product_between(lo as int, hi - 1);
        assert(a * (b * hi) == hi * (a * b)) by (nonlinear_arith);
    } else {
        assert(factorial(lo) * 1 == factorial(lo));
    }
}

/// At `x = 1` every Legendre polynomial of order zero is one:
/// `P(l, 0, 1) = 1`.
///
/// The recurrence reaches this through the integers `1, ..., 2 l - 1` alone,
/// so it holds for every scalar that computes exactly with the integers up
/// to `2 l`.
pub proof fn lemma_legendre_at_one<T: SphrsFloat>(l: int)
    requires
        0 <= l <= MAX_DEGREE,
        exact_on_integers::<T>(2 * l),
    ensures
        legendre::<T>(l, 0, T::one()) == T::one(),
    decreases l,
{
    let one = T::from_i64(1);
    assert(legendre_diagonal::<T>(0, T::one()) == T::one());
    if l == 0 {
    } else if l == 1 {
        assert(one.mul(one) == one);
    } else {
        assert(one.mul(one) == one);
        lemma_legendre_at_one::<T>(l - 1);
        lemma_legendre_at_one::<T>(l - 2);
        let high = T::from_i64((2 * l - 1) as i64);
        let low = T::from_i64((l - 1) as i64);
        assert(high.mul(one) == high);
        assert(low.mul(one) == low);
        assert(high.sub(low) == from_int::<T>(l));
        assert(l % l == 0 && l / l == 1) by (nonlinear_arith)
            requires
                l > 0,
        ;
        assert(T::from_i64(l as i64).div(T::from_i64(l as i64)) == one);
    }
}

} // verus!
