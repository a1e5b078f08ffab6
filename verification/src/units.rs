//! Fixed-point units shared by the whole simulation.
//!
//! Lengths are counted in thousandths of a world unit, velocities in
//! thousandths of a world unit per second, accelerations in thousandths of a
//! world unit per second squared, and time in microseconds. Motion rounds
//! towards zero, so that nothing creeps; positions on a grid (tiles, levels,
//! displays) round towards negative infinity.

use vstd::prelude::*;

verus! {

/// Fixed-point steps in one world unit.
pub const UNIT: i64 = 1_000;

/// Microseconds in one second.
pub const MICROS_PER_SECOND: i64 = 1_000_000;

/// Largest magnitude of a velocity, or of a bound of the level, that the
/// step functions accept.
pub const LIMIT: i64 = 0x100_0000_0000;

/// Largest magnitude of a coordinate that the step functions accept.
pub const SPAN: i64 = 0x8000_0000_0000;

/// Seconds in the longest tick, rounded up.
pub const LONGEST_TICK: i64 = 4_295;

/// Whether `v` is a coordinate within the accepted magnitude.
pub open spec fn within_span(v: int) -> bool {
    -(SPAN as int) <= v <= SPAN as int
}

/// Whether `v` is a velocity within the accepted magnitude.
pub open spec fn within_limit(v: int) -> bool {
    -(LIMIT as int) <= v <= LIMIT as int
}

/// Whether `v` is within twice the accepted magnitude, which is as far as one
/// step can carry a value that started within it.
pub open spec fn within_reach(v: int) -> bool {
    -2 * LIMIT <= v <= 2 * LIMIT
}

/// The quotient `n / d` rounded towards negative infinity.
pub open spec fn floor_div(n: int, d: int) -> int {
    n / d
}

/// Computes `n / d` rounded towards negative infinity.
pub fn div_floor(n: i128, d: i128) -> (q: i128)
    requires
        d > 0,
    ensures
        q == floor_div(n as int, d as int),
        q * d <= n < q * d + d,
{
    if n >= 0 {
        let q = n / d;
        proof {
            vstd::arithmetic::div_mod::lemma_fundamental_div_mod(n as int, d as int);
            vstd::arithmetic::div_mod::lemma_mod_bound(n as int, d as int);
            vstd::arithmetic::mul::lemma_mul_is_commutative(q as int, d as int);
        }
        q
    } else {
        let m = -(n + 1);
        let k = m / d;
        let r = m % d;
        proof {
            vstd::arithmetic::div_mod::lemma_fundamental_div_mod(m as int, d as int);
            vstd::arithmetic::div_mod::lemma_mod_bound(m as int, d as int);
            vstd::arithmetic::mul::lemma_mul_is_commutative(k as int, d as int);
            assert((-k - 1) * d == -(k * d) - d) by (nonlinear_arith);
            vstd::arithmetic::div_mod::lemma_fundamental_div_mod_converse(
                n as int,
                d as int,
                -k - 1,
                d - 1 - r,
            );
        }
        -k - 1
    }
}

/// The quotient `n / d` rounded towards zero.
pub open spec fn toward_zero(n: int, d: int) -> int {
    if n >= 0 {
        n / d
    } else {
        -((-n) / d)
    }
}

/// Rounding towards zero never leaves the dividend behind: the quotient
/// times the divisor lies between zero and the dividend, less than one
/// divisor short of it.
pub proof fn toward_zero_falls_short(n: int, d: int)
    requires
        d > 0,
    ensures
        n >= 0 ==> 0 <= toward_zero(n, d) * d <= n < toward_zero(n, d) * d + d,
        n <= 0 ==> toward_zero(n, d) * d - d < n <= toward_zero(n, d) * d <= 0,
        n >= 0 ==> toward_zero(n, d) >= 0,
        n <= 0 ==> toward_zero(n, d) <= 0,
{
    let m = if n >= 0 {
        n
    } else {
        -n
    };
    let q = m / d;
    vstd::arithmetic::div_mod::lemma_fundamental_div_mod(m, d);
    vstd::arithmetic::div_mod::lemma_mod_bound(m, d);
    vstd::arithmetic::mul::lemma_mul_is_commutative(q, d);
    assert(q >= 0) by (nonlinear_arith)
        requires
            q * d > -d,
            d > 0,
    ;
    assert((-q) * d == -(q * d)) by (nonlinear_arith);
}

/// Computes `n / d` rounded towards zero.
pub fn div_toward_zero(n: i128, d: i128) -> (q: i128)
    requires
        d > 0,
        n > i128::MIN,
    ensures
        q == toward_zero(n as int, d as int),
{
    proof {
        toward_zero_falls_short(n as int, d as int);
    }
    if n >= 0 {
        n / d
    } else {
        let m = -n;
        proof {
            vstd::arithmetic::div_mod::lemma_fundamental_div_mod(m as int, d as int);
            vstd::arithmetic::div_mod::lemma_mod_bound(m as int, d as int);
            vstd::arithmetic::mul::lemma_mul_is_commutative((m / d) as int, d as int);
            assert(m / d >= 0) by (nonlinear_arith)
                requires
                    (m / d) * d > -d,
                    d > 0,
            ;
            assert((m / d) * d <= m);
            assert(m / d <= m) by (nonlinear_arith)
                requires
                    (m / d) * d <= m,
                    m / d >= 0,
                    d >= 1,
            ;
        }
        -(m / d)
    }
}

/// What a quantity that changes at `rate` per second gains over `dt`
/// microseconds, rounded towards zero.
pub open spec fn gain(rate: int, dt: int) -> int {
    toward_zero(rate * dt, MICROS_PER_SECOND as int)
}

/// A rate within twice the accepted magnitude gains less than 2^54 over any
/// tick, and nothing against its own direction.
pub proof fn gain_is_bounded(rate: int, dt: int)
    requires
        within_reach(rate),
        0 <= dt <= u32::MAX,
    ensures
        -0x40_0000_0000_0000 < gain(rate, dt) < 0x40_0000_0000_0000,
        rate >= 0 ==> gain(rate, dt) >= 0,
        rate <= 0 ==> gain(rate, dt) <= 0,
{
    let n = rate * dt;
    let d = MICROS_PER_SECOND as int;
    assert(-0x200_0000_0000 * 0x1_0000_0000 <= n <= 0x200_0000_0000 * 0x1_0000_0000)
        by (nonlinear_arith)
        requires
            n == rate * dt,
            -0x200_0000_0000 <= rate <= 0x200_0000_0000,
            0 <= dt <= 0xffff_ffff,
    ;
    assert(rate >= 0 ==> n >= 0) by (nonlinear_arith)
        requires
            n == rate * dt,
            0 <= dt,
    ;
    assert(rate <= 0 ==> n <= 0) by (nonlinear_arith)
        requires
            n == rate * dt,
            0 <= dt,
    ;
    toward_zero_falls_short(n, d);
}

/// Over any tick a quantity gains no more than its rate does in the longest tick.
pub proof fn gain_within_a_tick(rate: int, dt: int)
    requires
        0 <= dt <= u32::MAX,
    ensures
        rate >= 0 ==> 0 <= gain(rate, dt) <= rate * LONGEST_TICK,
        rate <= 0 ==> rate * LONGEST_TICK <= gain(rate, dt) <= 0,
{
    let n = rate * dt;
    let d = MICROS_PER_SECOND as int;
    let q = toward_zero(n, d);
    toward_zero_falls_short(n, d);
    assert(rate >= 0 ==> 0 <= n <= rate * 4_295_000_000) by (nonlinear_arith)
        requires
            n == rate * dt,
            0 <= dt <= 4_294_967_295,
    ;
    assert(rate <= 0 ==> rate * 4_295_000_000 <= n <= 0) by (nonlinear_arith)
        requires
            n == rate * dt,
            0 <= dt <= 4_294_967_295,
    ;
    assert(rate * LONGEST_TICK == rate * 4_295) by (nonlinear_arith)
        requires
            LONGEST_TICK == 4_295,
    ;
}

/// Computes [`gain`] for a rate within twice the accepted magnitude.
pub fn gain_over(rate: i64, dt: u32) -> (g: i64)
    requires
        within_reach(rate as int),
    ensures
        g == gain(rate as int, dt as int),
{
    proof {
        gain_is_bounded(rate as int, dt as int);
        assert(-0x200_0000_0000 * 0x1_0000_0000 <= rate * dt <= 0x200_0000_0000 * 0x1_0000_0000)
            by (nonlinear_arith)
            requires
                -0x200_0000_0000 <= rate <= 0x200_0000_0000,
                0 <= dt <= 0xffff_ffff,
        ;
    }
    let n: i128 = (rate as i128) * (dt as i128);
    let q = div_toward_zero(n, MICROS_PER_SECOND as i128);
    q as i64
}

/// Whether `r` is the integer square root of `n`: the largest integer whose
/// square does not exceed `n`.
pub open spec fn is_sqrt_floor(n: int, r: int) -> bool {
    0 <= r && r * r <= n < (r + 1) * (r + 1)
}

/// The integer square root is unique.
pub proof fn sqrt_floor_is_unique(n: int, a: int, b: int)
    requires
        is_sqrt_floor(n, a),
        is_sqrt_floor(n, b),
    ensures
        a == b,
{
    if a < b {
        assert((a + 1) * (a + 1) <= b * b) by (nonlinear_arith)
            requires
                0 <= a,
                a + 1 <= b,
        ;
    } else if b < a {
        assert((b + 1) * (b + 1) <= a * a) by (nonlinear_arith)
            requires
                0 <= b,
                b + 1 <= a,
        ;
    }
}

/// The integer square root of `n`.
pub open spec fn sqrt_floor(n: int) -> int {
    choose|r: int| is_sqrt_floor(n, r)
}

/// Computes the integer square root of `n` by bisection.
pub fn isqrt(n: u64) -> (r: u64)
    ensures
        r == sqrt_floor(n as int),
        is_sqrt_floor(n as int, r as int),
        r <= 0xffff_ffff,
{
    let mut low: u64 = 0;
    let mut high: u64 = 0x1_0000_0000;
    while high - low > 1
        invariant
            low < high <= 0x1_0000_0000,
            low * low <= n,
            n < high * high,
        decreases high - low,
    {
        let mid: u64 = low + (high - low) / 2;
        assert(mid * mid <= 0xffff_ffff * 0xffff_ffff) by (nonlinear_arith)
            requires
                0 <= mid <= 0xffff_ffff,
        ;
        if mid * mid <= n {
            low = mid;
        } else {
            high = mid;
        }
    }
    proof {
        assert(is_sqrt_floor(n as int, low as int));
        sqrt_floor_is_unique(n as int, low as int, sqrt_floor(n as int));
    }
    low
}

} // verus!
