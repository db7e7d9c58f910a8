//! Alignment arithmetic for the allocator's cursors.
//!
//! Addresses are modelled as mathematical integers; both cursors are kept
//! aligned by rounding: the byte cursor is rounded up to the requested
//! alignment, the page cursor is rounded down to the larger of the requested
//! alignment and the page size.

use vstd::prelude::*;
use vstd::arithmetic::div_mod::{
    lemma_fundamental_div_mod, lemma_mod_division_less_than_divisor, lemma_mod_multiples_basic,
};
use vstd::arithmetic::power::{lemma_pow_adds, lemma_pow_strictly_increases};
use vstd::arithmetic::power2::{is_pow2, is_pow2_equiv};

verus! {

/// The greatest multiple of `m` that is at most `a`.
pub open spec fn align_down(a: int, m: int) -> int {
    a - a % m
}

/// The least multiple of `m` that is at least `a`.
pub open spec fn align_up(a: int, m: int) -> int {
    if a % m == 0 {
        a
    } else {
        a - a % m + m
    }
}

/// A power of two is at least one.
pub proof fn lemma_is_pow2_pos(n: int)
    requires
        is_pow2(n),
    ensures
        n >= 1,
{
    reveal(is_pow2);
}

/// The smaller of two powers of two divides the larger.
pub proof fn lemma_pow2_divides(a: int, b: int)
    requires
        is_pow2(a),
        is_pow2(b),
        a <= b,
    ensures
        b % a == 0,
{
    is_pow2_equiv(a);
    is_pow2_equiv(b);
    let i = choose|i: nat| vstd::arithmetic::power::pow(2, i) == a;
    let j = choose|j: nat| vstd::arithmetic::power::pow(2, j) == b;
    if j < i {
        lemma_pow_strictly_increases(2, j, i);
    }
    lemma_pow_adds(2, i, (j - i) as nat);
    lemma_is_pow2_pos(a);
    assert(b == a * vstd::arithmetic::power::pow(2, (j - i) as nat));
    lemma_mod_multiples_basic(vstd::arithmetic::power::pow(2, (j - i) as nat) as int, a);
}

/// Rounding down yields a multiple of `m` no further than `m - 1` below `a`.
pub proof fn lemma_align_down(a: int, m: int)
    requires
        m > 0,
    ensures
        align_down(a, m) % m == 0,
        a - m < align_down(a, m) <= a,
{
    lemma_mod_division_less_than_divisor(a, m);
    lemma_fundamental_div_mod(a, m);
    lemma_mod_multiples_basic(a / m, m);
    assert(m * (a / m) == (a / m) * m) by (nonlinear_arith);
}

/// Rounding up yields a multiple of `m` no further than `m - 1` above `a`.
pub proof fn lemma_align_up(a: int, m: int)
    requires
        m > 0,
    ensures
        align_up(a, m) % m == 0,
        a <= align_up(a, m) < a + m,
{
    lemma_mod_division_less_than_divisor(a, m);
    lemma_fundamental_div_mod(a, m);
    assert(m * (a / m) == (a / m) * m) by (nonlinear_arith);
    if a % m == 0 {
        lemma_mod_multiples_basic(a / m, m);
    } else {
        lemma_mod_multiples_basic(a / m + 1, m);
        assert((a / m + 1) * m == a / m * m + m) by (nonlinear_arith);
    }
}

/// Divisibility is transitive: a multiple of `d` is a multiple of every
/// divisor of `d`.
pub proof fn lemma_mod_divides_trans(x: int, d: int, m: int)
    requires
        d > 0,
        m > 0,
        x % d == 0,
        d % m == 0,
    ensures
        x % m == 0,
{
    lemma_fundamental_div_mod(x, d);
    lemma_fundamental_div_mod(d, m);
    assert(x == (x / d * (d / m)) * m) by (nonlinear_arith)
        requires
            x == d * (x / d),
            d == m * (d / m),
    ;
    lemma_mod_multiples_basic(x / d * (d / m), m);
}

} // verus!
