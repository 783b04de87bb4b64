//! Rounded division over the integers, and the bounds that the pool's
//! arithmetic rests on.

use vstd::prelude::*;

verus! {

/// The quotient of `n` by `d`, rounded up: the least `q` with `q * d >= n`.
pub open spec fn ceil_div(n: int, d: int) -> int
    recommends
        d > 0,
{
    (n + d - 1) / d
}

/// A quotient rounded down is the one multiple count that brackets `n` from below.
pub proof fn lemma_floor_div_bounds(n: int, d: int)
    by (nonlinear_arith)
    requires
        d > 0,
    ensures
        (n / d) * d <= n < (n / d) * d + d,
{
}

/// Any `q` that brackets `n` from below is the quotient rounded down.
pub proof fn lemma_floor_div_unique(n: int, d: int, q: int)
    by (nonlinear_arith)
    requires
        d > 0,
        q * d <= n < q * d + d,
    ensures
        q == n / d,
{
}

/// A quotient rounded up is the one multiple count that brackets `n` from above.
pub proof fn lemma_ceil_div_bounds(n: int, d: int)
    requires
        d > 0,
    ensures
        n <= ceil_div(n, d) * d < n + d,
{
    lemma_floor_div_bounds(n + d - 1, d);
}

/// Any `q` that brackets `n` from above is the quotient rounded up.
pub proof fn lemma_ceil_div_unique(n: int, d: int, q: int)
    requires
        d > 0,
        n <= q * d < n + d,
    ensures
        q == ceil_div(n, d),
{
    lemma_floor_div_unique(n + d - 1, d, q);
}

/// Rounding up never goes below rounding down, and exceeds it by at most one.
pub proof fn lemma_ceil_div_near_floor(n: int, d: int)
    requires
        d > 0,
    ensures
        n / d <= ceil_div(n, d) <= n / d + 1,
        n % d == 0 ==> ceil_div(n, d) == n / d,
        n % d != 0 ==> ceil_div(n, d) == n / d + 1,
{
    lemma_floor_div_bounds(n, d);
    vstd::arithmetic::div_mod::lemma_fundamental_div_mod(n, d);
    let q: int = n / d;
    assert(d * q == q * d) by (nonlinear_arith);
    if n % d == 0 {
        lemma_ceil_div_unique(n, d, q);
    } else {
        assert((q + 1) * d == q * d + d) by (nonlinear_arith);
        lemma_ceil_div_unique(n, d, q + 1);
    }
}

/// A product of non-negative factors is non-negative and grows with each factor.
pub proof fn lemma_mul_monotone(a: int, b: int, c: int, d: int)
    by (nonlinear_arith)
    requires
        0 <= a <= b,
        0 <= c <= d,
    ensures
        0 <= a * c <= b * d,
{
}

} // verus!
