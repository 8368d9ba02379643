//! Facts of integer arithmetic that the solver does not find by itself.

use vstd::prelude::*;

verus! {

/// A product of non-negative factors grows with each factor.
pub proof fn lemma_mul_le(a: int, b: int, c: int, d: int)
    requires
        0 <= a <= c,
        0 <= b <= d,
    ensures
        0 <= a * b <= c * d,
{
    assert(0 <= a * b <= c * d) by (nonlinear_arith)
        requires
            0 <= a <= c,
            0 <= b <= d,
    ;
}

/// The quotient of a non-negative number by a positive one is at most the
/// number.
pub proof fn lemma_div_bound(a: int, d: int)
    requires
        0 <= a,
        0 < d,
    ensures
        0 <= a / d <= a,
{
    assert(0 <= a / d <= a) by (nonlinear_arith)
        requires
            0 <= a,
            0 < d,
    ;
}

/// A number written as `y * d + x` with `0 <= x < d` has quotient `y` and
/// remainder `x`.
pub proof fn lemma_div_mod_unique(y: int, x: int, d: int)
    requires
        0 <= x < d,
    ensures
        (y * d + x) / d == y,
        (y * d + x) % d == x,
{
    assert((y * d + x) / d == y && (y * d + x) % d == x) by (nonlinear_arith)
        requires
            0 <= x < d,
    {
        let n = y * d + x;
        let q = n / d;
        let r = n % d;
        assert(n == q * d + r);
        assert(0 <= r < d);
        assert((q - y) * d == x - r);
        if q > y {
            assert((q - y) * d >= d);
        } else if q < y {
            assert((q - y) * d <= -d);
        }
    }
}

/// Every number is its quotient times the divisor plus its remainder.
pub proof fn lemma_div_mod_parts(n: int, d: int)
    requires
        0 < d,
    ensures
        n == (n / d) * d + n % d,
        0 <= n % d < d,
{
    assert(n == (n / d) * d + n % d && 0 <= n % d < d) by (nonlinear_arith)
        requires
            0 < d,
    ;
}

} // verus!
