//! Fixed-point numbers.
//!
//! Proportions are counted in billionths ([`UNIT`] is one), device-independent pixels in
//! millionths ([`DIP`] is one). Every division rounds to the nearest step, halves away from
//! zero, so a computed value differs from the exact quotient by at most half a step.
use vstd::prelude::*;

verus! {

/// The proportion one.
pub const UNIT: i64 = 1_000_000_000;

/// One device-independent pixel.
pub const DIP: i64 = 1_000_000;

pub open spec fn magnitude(n: int) -> int {
    if n < 0 {
        -n
    } else {
        n
    }
}

/// The integer nearest to `n / d`, halves away from zero.
pub open spec fn nearest(n: int, d: int) -> int {
    let whole = magnitude(n) / d;
    let rounded = if 2 * (magnitude(n) % d) >= d {
        whole + 1
    } else {
        whole
    };
    if n < 0 {
        -rounded
    } else {
        rounded
    }
}

/// `n` kept within `low..=high`.
pub open spec fn clamped(n: int, low: int, high: int) -> int {
    if n < low {
        low
    } else if n > high {
        high
    } else {
        n
    }
}

/// `n` kept within the range of an `i32`.
pub open spec fn saturated(n: int) -> int {
    clamped(n, i32::MIN as int, i32::MAX as int)
}

/// A rounded quotient is within half a step of the exact one.
pub proof fn law_nearest_is_within_half_a_step(n: int, d: int)
    requires
        d > 0,
    ensures
        2 * magnitude(n - nearest(n, d) * d) <= d,
{
    let m = magnitude(n);
    let q = m / d;
    let r = m % d;
    vstd::arithmetic::div_mod::lemma_fundamental_div_mod(m, d);
    assert(d * q == q * d) by (nonlinear_arith);
    assert((q + 1) * d == q * d + d) by (nonlinear_arith);
    assert((-q) * d == -(q * d)) by (nonlinear_arith);
    assert((-(q + 1)) * d == -(q * d) - d) by (nonlinear_arith);
}

/// Rounding keeps the order of the numerators.
pub proof fn law_nearest_is_monotonic(a: int, b: int, d: int)
    requires
        d > 0,
        a <= b,
    ensures
        nearest(a, d) <= nearest(b, d),
{
    if 0 <= a {
        lemma_nearest_nonnegative_monotonic(a, b, d);
    } else if b < 0 {
        lemma_nearest_nonnegative_monotonic(-b, -a, d);
    } else {
        lemma_nearest_nonnegative_monotonic(0, -a, d);
        lemma_nearest_nonnegative_monotonic(0, b, d);
    }
}

proof fn lemma_nearest_nonnegative_monotonic(a: int, b: int, d: int)
    requires
        d > 0,
        0 <= a <= b,
    ensures
        0 <= nearest(a, d) <= nearest(b, d),
{
    let (qa, ra) = (a / d, a % d);
    let (qb, rb) = (b / d, b % d);
    vstd::arithmetic::div_mod::lemma_fundamental_div_mod(a, d);
    vstd::arithmetic::div_mod::lemma_fundamental_div_mod(b, d);
    assert(qa >= 0) by (nonlinear_arith)
        requires
            a >= 0,
            d > 0,
            qa == a / d,
    ;
    if qa > qb {
        assert(d * qa >= d * qb + d) by (nonlinear_arith)
            requires
                qa >= qb + 1,
                d > 0,
        ;
    } else if qa == qb {
        assert(d * qa == d * qb);
    }
}

/// A whole number of steps is its own rounding.
pub proof fn law_nearest_of_a_multiple(k: int, d: int)
    requires
        d > 0,
    ensures
        nearest(k * d, d) == k,
{
    if k >= 0 {
        lemma_nearest_of_nonnegative_multiple(k, d);
    } else {
        lemma_nearest_of_nonnegative_multiple(-k, d);
        assert((-k) * d == -(k * d)) by (nonlinear_arith);
        assert(k * d < 0) by (nonlinear_arith)
            requires
                k < 0,
                d > 0,
        ;
    }
}

proof fn lemma_nearest_of_nonnegative_multiple(k: int, d: int)
    requires
        d > 0,
        k >= 0,
    ensures
        nearest(k * d, d) == k,
        k * d >= 0,
{
    assert(k * d >= 0) by (nonlinear_arith)
        requires
            k >= 0,
            d > 0,
    ;
    vstd::arithmetic::div_mod::lemma_div_multiples_vanish(k, d);
    vstd::arithmetic::div_mod::lemma_mod_multiples_basic(k, d);
    assert(k * d == d * k) by (nonlinear_arith);
}

/// The integer nearest to `n / d`, halves away from zero.
pub fn round_div(n: i128, d: i128) -> (quotient: i128)
    requires
        d > 0,
        n > i128::MIN,
    ensures
        quotient == nearest(n as int, d as int),
{
    let negative = n < 0;
    let m: i128 = if negative {
        -n
    } else {
        n
    };
    let whole: i128 = m / d;
    let rest: i128 = m % d;
    proof {
        vstd::arithmetic::div_mod::lemma_fundamental_div_mod(m as int, d as int);
        assert(whole <= m) by (nonlinear_arith)
            requires
                m >= 0,
                d > 0,
                whole == m as int / d as int,
        ;
        if d == 1 {
            assert(rest == 0);
        } else {
            assert(whole < m || m == 0) by (nonlinear_arith)
                requires
                    m >= 0,
                    d >= 2,
                    whole == m as int / d as int,
            ;
        }
    }
    let rounded: i128 = if rest >= d - rest {
        whole + 1
    } else {
        whole
    };
    if negative {
        -rounded
    } else {
        rounded
    }
}

pub fn clamp_i64(n: i64, low: i64, high: i64) -> (kept: i64)
    requires
        low <= high,
    ensures
        kept == clamped(n as int, low as int, high as int),
{
    if n < low {
        low
    } else if n > high {
        high
    } else {
        n
    }
}

pub fn clamp_i32(n: i32, low: i32, high: i32) -> (kept: i32)
    requires
        low <= high,
    ensures
        kept == clamped(n as int, low as int, high as int),
{
    if n < low {
        low
    } else if n > high {
        high
    } else {
        n
    }
}

/// `a - b`, kept within the range of an `i32`.
pub fn saturating_diff(a: i32, b: i32) -> (kept: i32)
    ensures
        kept == saturated(a - b),
{
    saturate_i32(a as i128 - b as i128)
}

pub fn saturate_i32(n: i128) -> (kept: i32)
    ensures
        kept == saturated(n as int),
{
    if n < i32::MIN as i128 {
        i32::MIN
    } else if n > i32::MAX as i128 {
        i32::MAX
    } else {
        n as i32
    }
}

/// Of the two nearest numbers to an exact half the one further from zero is taken, and of any other
/// quotient the nearest.
pub proof fn law_halves_go_away_from_zero(n: i128, d: i128, rounded: i128)
    requires
        call_ensures(round_div, (n, d), rounded),
        d > 0,
    ensures
        -d <= 2 * (rounded * d - n) <= d,
        n >= 0 ==> -d < 2 * (rounded * d - n),
        n < 0 ==> 2 * (rounded * d - n) < d,
{
    let m = magnitude(n as int);
    let e = d as int;
    let q = m / e;
    law_nearest_is_within_half_a_step(n as int, e);
    vstd::arithmetic::div_mod::lemma_fundamental_div_mod(m, e);
    assert(e * q == q * e) by (nonlinear_arith);
    assert((q + 1) * e == q * e + e) by (nonlinear_arith);
    assert((-q) * e == -(q * e)) by (nonlinear_arith);
    assert((-(q + 1)) * e == -(q * e) - e) by (nonlinear_arith);
}

/// A number is kept where it is within its bounds and moved to the closer bound where it is not.
pub proof fn law_numbers_are_kept_within_bounds(
    n: i64,
    low: i64,
    high: i64,
    kept: i64,
    m: i32,
    m_low: i32,
    m_high: i32,
    m_kept: i32,
)
    requires
        low <= high,
        m_low <= m_high,
        call_ensures(clamp_i64, (n, low, high), kept),
        call_ensures(clamp_i32, (m, m_low, m_high), m_kept),
    ensures
        n <= low ==> kept == low,
        n >= high ==> kept == high,
        low <= n <= high ==> kept == n,
        m <= m_low ==> m_kept == m_low,
        m >= m_high ==> m_kept == m_high,
        m_low <= m <= m_high ==> m_kept == m,
{
}

/// A difference and a number are kept within what thirty-two bits hold.
pub proof fn law_saturation_is_exact_within_range(
    a: i32,
    b: i32,
    difference: i32,
    n: i128,
    kept: i32,
)
    requires
        call_ensures(saturating_diff, (a, b), difference),
        call_ensures(saturate_i32, (n,), kept),
    ensures
        -2_147_483_648 <= a - b <= 2_147_483_647 ==> difference == a - b,
        a - b > 2_147_483_647 ==> difference == 2_147_483_647,
        a - b < -2_147_483_648 ==> difference == -2_147_483_648,
        -2_147_483_648 <= n <= 2_147_483_647 ==> kept == n,
        n > 2_147_483_647 ==> kept == 2_147_483_647,
        n < -2_147_483_648 ==> kept == -2_147_483_648,
{
}

/// The rounded quotient of a number that is not negative is the only one this close to it.
pub proof fn lemma_nearest_is_unique(n: int, d: int, k: int)
    requires
        d > 0,
        n >= 0,
        -d < 2 * (k * d - n) <= d,
    ensures
        nearest(n, d) == k,
{
    let r = nearest(n, d);
    let q = n / d;
    vstd::arithmetic::div_mod::lemma_fundamental_div_mod(n, d);
    assert(d * q == q * d) by (nonlinear_arith);
    assert((q + 1) * d == q * d + d) by (nonlinear_arith);
    assert(-d < 2 * (r * d - n) <= d);
    assert(-d < (k - r) * d < d) by (nonlinear_arith)
        requires
            -d < 2 * (r * d - n) <= d,
            -d < 2 * (k * d - n) <= d,
    ;
    assert(k == r) by (nonlinear_arith)
        requires
            d > 0,
            -d < (k - r) * d < d,
    ;
}

} // verus!
