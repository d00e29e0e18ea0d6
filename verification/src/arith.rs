//! Rounding arithmetic shared by the image geometry computations.

use vstd::prelude::*;
use vstd::arithmetic::div_mod::{
    lemma_fundamental_div_mod, lemma_mod_division_less_than_divisor, lemma_mod_multiples_basic,
};

verus! {

/// `d` evenly divides `n`.
pub open spec fn divides(d: nat, n: nat) -> bool {
    exists|k: nat| n == #[trigger] (d * k)
}

/// `n` is a power of two.
pub open spec fn is_power_of_two(n: int) -> bool
    decreases n,
{
    if n <= 0 {
        false
    } else if n == 1 {
        true
    } else {
        n % 2 == 0 && is_power_of_two(n / 2)
    }
}

/// Decides whether `n` is a power of two.
pub fn power_of_two(n: usize) -> (r: bool)
    ensures
        r == is_power_of_two(n as int),
{
    let mut m: usize = n;
    while m > 1 && m % 2 == 0
        invariant
            is_power_of_two(n as int) == is_power_of_two(m as int),
        decreases m,
    {
        m = m / 2;
    }
    m == 1
}

/// Ceiling of `n / d`.
pub open spec fn spec_div_ceil(n: int, d: int) -> int {
    (n + d - 1) / d
}

/// `n` rounded up to the nearest multiple of `d`.
pub open spec fn spec_next_multiple_of(n: int, d: int) -> int {
    spec_div_ceil(n, d) * d
}

/// Ceiling division: the number of `divisor`-sized blocks needed to cover `n`.
pub fn div_ceil(n: usize, divisor: usize) -> (r: usize)
    requires
        divisor >= 1,
        n + divisor - 1 <= usize::MAX,
    ensures
        r == spec_div_ceil(n as int, divisor as int),
        r <= n,
        n <= r * divisor,
{
    proof {
        let s = n + divisor - 1;
        lemma_fundamental_div_mod(s as int, divisor as int);
        lemma_mod_division_less_than_divisor(s as int, divisor as int);
        let q = spec_div_ceil(n as int, divisor as int);
        let rem = s % (divisor as int);
        assert(q <= n && n <= q * divisor) by (nonlinear_arith)
            requires
                divisor >= 1,
                n >= 0,
                (divisor as int) * q + rem == n + divisor - 1,
                0 <= rem < divisor,
        ;
    }
    (n + (divisor - 1)) / divisor
}

/// Rounds `n` up to the nearest multiple of `divisor`.
pub fn next_multiple_of(n: usize, divisor: usize) -> (r: usize)
    requires
        divisor >= 1,
        n + divisor - 1 <= usize::MAX,
    ensures
        r == spec_next_multiple_of(n as int, divisor as int),
        n <= r <= n + divisor - 1,
        r % divisor == 0,
{
    proof {
        lemma_next_multiple_of_bounds(n as int, divisor as int);
        lemma_mod_multiples_basic(spec_div_ceil(n as int, divisor as int), divisor as int);
    }
    div_ceil(n, divisor) * divisor
}

/// Products of two values that each fit in 64 bits fit in 128 bits.
pub(crate) proof fn lemma_u64_products_fit_u128(a: int, b: int)
    requires
        0 <= a <= u64::MAX,
        0 <= b <= u64::MAX,
    ensures
        a * b <= u128::MAX,
{
    assert(a * b <= u64::MAX * u64::MAX) by (nonlinear_arith)
        requires
            0 <= a <= u64::MAX,
            0 <= b <= u64::MAX,
    ;
}

/// Products of plane dimensions bounded by the native integer width leave
/// room for a small multiple of their product in 128 bits.
pub(crate) proof fn lemma_small_products_fit(a: int, b: int)
    requires
        0 <= a <= 0x1_0000_0000,
        0 <= b <= 0x1_0000_0000,
    ensures
        a * b <= 0x1_0000_0000_0000_0000,
{
    assert(a * b <= 0x1_0000_0000 * 0x1_0000_0000) by (nonlinear_arith)
        requires
            0 <= a <= 0x1_0000_0000,
            0 <= b <= 0x1_0000_0000,
    ;
}

/// Ceiling division on wide integers, for geometry sums that are checked
/// against `usize::MAX` only once complete.
pub(crate) fn div_ceil_u128(n: u128, divisor: u128) -> (r: u128)
    requires
        divisor >= 1,
        n + divisor - 1 <= u128::MAX,
    ensures
        r == spec_div_ceil(n as int, divisor as int),
        r <= n,
        n <= r * divisor,
{
    proof {
        let s = n + divisor - 1;
        lemma_fundamental_div_mod(s as int, divisor as int);
        lemma_mod_division_less_than_divisor(s as int, divisor as int);
        let q = spec_div_ceil(n as int, divisor as int);
        let rem = s % (divisor as int);
        assert(q <= n && n <= q * divisor) by (nonlinear_arith)
            requires
                divisor >= 1,
                n >= 0,
                (divisor as int) * q + rem == n + divisor - 1,
                0 <= rem < divisor,
        ;
    }
    (n + (divisor - 1)) / divisor
}

/// Rounding to the next multiple on wide integers.
pub(crate) fn next_multiple_of_u128(n: u128, divisor: u128) -> (r: u128)
    requires
        divisor >= 1,
        n + divisor - 1 <= u128::MAX,
    ensures
        r == spec_next_multiple_of(n as int, divisor as int),
        n <= r <= n + divisor - 1,
{
    proof {
        lemma_next_multiple_of_bounds(n as int, divisor as int);
    }
    div_ceil_u128(n, divisor) * divisor
}

/// Rounding `n` up to a multiple of `d` moves it up by less than `d`.
pub proof fn lemma_next_multiple_of_bounds(n: int, d: int)
    requires
        d >= 1,
        n >= 0,
    ensures
        n <= spec_next_multiple_of(n, d) <= n + d - 1,
{
    let s = n + d - 1;
    lemma_fundamental_div_mod(s, d);
    lemma_mod_division_less_than_divisor(s, d);
    assert(d * (s / d) == (s / d) * d) by (nonlinear_arith);
}

} // verus!
