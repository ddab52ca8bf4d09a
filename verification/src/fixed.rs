//! Fixed-point scalar arithmetic.
//!
//! Scalar quantities (lengths, speeds, angles, masses, momenta) are `i64`
//! values carrying [`UNIT`] sub-units per unit. Durations are `i64` tick
//! counts with [`TICKS_PER_SECOND`] ticks per second. All derived values are
//! produced by truncating division ([`tdiv`]), which rounds toward zero, so
//! every computation in the crate is exact integer arithmetic.

use vstd::prelude::*;

verus! {

use vstd::arithmetic::div_mod::{
    lemma_div_nonincreasing, lemma_div_pos_is_pos, lemma_fundamental_div_mod,
    lemma_mod_division_less_than_divisor, lemma_multiply_divide_le,
};

/// Fixed-point denominator: scalar quantities carry this many sub-units per unit.
pub const UNIT: i64 = 1_000_000;

/// Ticks per second for durations and timesteps. The value is divisible by
/// the common simulation rates (30, 50, 60, 100, 120 Hz), so their periods
/// are whole numbers of ticks.
pub const TICKS_PER_SECOND: i64 = 600_000;

/// Squared-magnitude threshold below which a vector counts as negligible.
/// Equals the square of a thousandth of a unit, measured in squared sub-units.
pub const NEGLIGIBLE_SQ: i64 = 1_000_000;

/// Truncating division: rounds the exact quotient toward zero.
/// Defined for positive divisors only.
pub open spec fn tdiv(a: int, b: int) -> int
    recommends
        b >= 1,
{
    if a >= 0 {
        a / b
    } else {
        -((-a) / b)
    }
}

/// What [`tdiv`] leaves over; zero or of the same sign as `a`.
pub open spec fn trem(a: int, b: int) -> int
    recommends
        b >= 1,
{
    a - b * tdiv(a, b)
}

/// Truncating division shrinks magnitudes: the quotient lies between 0 and `a`.
pub proof fn lemma_tdiv_shrinks(a: int, b: int)
    requires
        b >= 1,
    ensures
        a >= 0 ==> 0 <= tdiv(a, b) <= a,
        a < 0 ==> a <= tdiv(a, b) <= 0,
{
    if a >= 0 {
        lemma_div_pos_is_pos(a, b);
        lemma_div_nonincreasing(a, b);
    } else {
        lemma_div_pos_is_pos(-a, b);
        lemma_div_nonincreasing(-a, b);
    }
}

/// If the dividend is bounded by `b * c` in magnitude, the truncated quotient
/// is bounded by `c`.
pub proof fn lemma_tdiv_bound(a: int, b: int, c: int)
    requires
        b >= 1,
        c >= 0,
        -(b * c) <= a <= b * c,
    ensures
        -c <= tdiv(a, b) <= c,
{
    if a >= 0 {
        lemma_div_pos_is_pos(a, b);
        lemma_multiply_divide_le(a, b, c);
    } else {
        lemma_div_pos_is_pos(-a, b);
        lemma_multiply_divide_le(-a, b, c);
    }
}

/// Truncating division of `i64` values.
pub fn div_trunc(a: i64, b: i64) -> (r: i64)
    requires
        b >= 1,
        a > i64::MIN,
    ensures
        r as int == tdiv(a as int, b as int),
        a >= 0 ==> 0 <= r <= a,
        a < 0 ==> a <= r <= 0,
{
    proof {
        lemma_tdiv_shrinks(a as int, b as int);
    }
    if a >= 0 {
        ((a as u64) / (b as u64)) as i64
    } else {
        let m: u64 = (-a) as u64;
        -((m / (b as u64)) as i64)
    }
}

/// Remainder of a non-negative `i64` value; used to drain whole timesteps
/// out of an accumulated duration.
pub fn rem_nonneg(a: i64, b: i64) -> (r: i64)
    requires
        a >= 0,
        b >= 1,
    ensures
        r as int == (a as int) % (b as int),
        0 <= r < b,
{
    ((a as u64) % (b as u64)) as i64
}

/// Bounds on both factors and on the divisor-scaled bound give a bound on
/// the truncated quotient of the product.
pub proof fn lemma_mul_div_bound(a: int, b: int, d: int, abound: int, bbound: int, c: int)
    requires
        d >= 1,
        abound >= 0,
        bbound >= 0,
        c >= 0,
        -abound <= a <= abound,
        -bbound <= b <= bbound,
        abound * bbound <= d * c,
    ensures
        -c <= tdiv(a * b, d) <= c,
{
    assert(-(abound * bbound) <= a * b <= abound * bbound) by (nonlinear_arith)
        requires
            abound >= 0,
            bbound >= 0,
            -abound <= a <= abound,
            -bbound <= b <= bbound;
    lemma_tdiv_bound(a * b, d, c);
}

/// Truncating remainder of an `i64` value: zero or of the same sign as `a`,
/// strictly smaller than `b` in magnitude.
pub fn rem_trunc(a: i64, b: i64) -> (r: i64)
    requires
        b >= 1,
        a > i64::MIN,
    ensures
        r as int == trem(a as int, b as int),
        -b < r < b,
{
    proof {
        if a >= 0 {
            lemma_fundamental_div_mod(a as int, b as int);
            lemma_mod_division_less_than_divisor(a as int, b as int);
        } else {
            lemma_fundamental_div_mod(-a as int, b as int);
            lemma_mod_division_less_than_divisor(-a as int, b as int);
        }
    }
    if a >= 0 {
        let r = ((a as u64) % (b as u64)) as i64;
        proof {
            assert(r as int == (a as int) % (b as int));
            assert(trem(a as int, b as int) == (a as int) - (b as int) * ((a as int) / (b as int)));
        }
        r
    } else {
        let m: u64 = (-a) as u64;
        let r = -((m % (b as u64)) as i64);
        proof {
            let q = (-(a as int)) / (b as int);
            vstd::arithmetic::mul::lemma_mul_unary_negation(b as int, q);
            assert(m as int == -(a as int));
            assert(r as int == -((-(a as int)) % (b as int)));
            assert(trem(a as int, b as int) == (a as int) + (b as int) * q);
        }
        r
    }
}

/// The truncated quotient of a product: `tdiv(a * b, d)`. The product is
/// formed in 128-bit arithmetic, so the only demand on the caller is that
/// the final quotient fits in an `i64`.
pub fn mul_div(a: i64, b: i64, d: i64) -> (r: i64)
    requires
        d >= 1,
        -(i64::MAX as int) <= tdiv(a as int * b as int, d as int) <= i64::MAX as int,
    ensures
        r as int == tdiv(a as int * b as int, d as int),
{
    proof {
        assert((a as int) * (b as int) <= 0x4000_0000_0000_0000_0000_0000_0000_0000int
            && (a as int) * (b as int) >= -0x4000_0000_0000_0000_0000_0000_0000_0000int)
            by (nonlinear_arith)
            requires
                -0x8000_0000_0000_0000int <= a as int <= 0x7fff_ffff_ffff_ffffint,
                -0x8000_0000_0000_0000int <= b as int <= 0x7fff_ffff_ffff_ffffint;
    }
    let p: i128 = (a as i128) * (b as i128);
    proof {
        lemma_tdiv_shrinks(p as int, d as int);
    }
    if p >= 0 {
        let q: u128 = (p as u128) / (d as u128);
        q as i64
    } else {
        let m: u128 = (-p) as u128;
        let q: u128 = m / (d as u128);
        -(q as i64)
    }
}

/// The integer square root: the largest `r` with `r * r <= n`.
pub open spec fn isqrt_nat(n: nat) -> nat
    decreases n,
{
    if n == 0 {
        0
    } else {
        let r = isqrt_nat((n - 1) as nat);
        if (r + 1) * (r + 1) <= n {
            r + 1
        } else {
            r
        }
    }
}

/// [`isqrt_nat`] over `int`, for use in contracts about signed quantities.
pub open spec fn isqrt(n: int) -> int
    recommends
        n >= 0,
{
    isqrt_nat(n as nat) as int
}

/// The defining property of the integer square root.
pub proof fn lemma_isqrt_bounds(n: nat)
    ensures
        isqrt_nat(n) * isqrt_nat(n) <= n,
        n < (isqrt_nat(n) + 1) * (isqrt_nat(n) + 1),
    decreases n,
{
    if n == 0 {
        assert(isqrt_nat(0) == 0);
        assert(isqrt_nat(n) * isqrt_nat(n) <= n);
        assert(n < (isqrt_nat(n) + 1) * (isqrt_nat(n) + 1)) by (nonlinear_arith)
            requires
                n == 0,
                isqrt_nat(n) == 0;
    } else {
        let m = (n - 1) as nat;
        lemma_isqrt_bounds(m);
        let r = isqrt_nat(m);
        if (r + 1) * (r + 1) <= n {
            assert(isqrt_nat(n) == r + 1);
            assert(n <= (r + 1) * (r + 1));
            assert((r + 1) * (r + 1) < (r + 2) * (r + 2)) by (nonlinear_arith);
            assert(isqrt_nat(n) * isqrt_nat(n) <= n);
            assert(n < (isqrt_nat(n) + 1) * (isqrt_nat(n) + 1));
        } else {
            assert(isqrt_nat(n) == r);
            assert(isqrt_nat(n) * isqrt_nat(n) <= n);
            assert(n < (isqrt_nat(n) + 1) * (isqrt_nat(n) + 1));
        }
    }
}

/// Any `r` satisfying the defining property is the integer square root.
pub proof fn lemma_isqrt_unique(n: int, r: int)
    requires
        n >= 0,
        r >= 0,
        r * r <= n,
        n < (r + 1) * (r + 1),
    ensures
        r == isqrt(n),
{
    lemma_isqrt_bounds(n as nat);
    let s = isqrt_nat(n as nat) as int;
    assert(r == s) by (nonlinear_arith)
        requires
            r >= 0,
            s >= 0,
            r * r <= n,
            n < (r + 1) * (r + 1),
            s * s <= n,
            n < (s + 1) * (s + 1);
}

/// The integer square root of a `u64` below 2^62, by bisection.
pub fn isqrt_u64(n: u64) -> (r: u64)
    requires
        n < 0x4000_0000_0000_0000,
    ensures
        r as int == isqrt(n as int),
        r * r <= n,
        n < (r + 1) * (r + 1),
{
    let mut lo: u64 = 0;
    let mut hi: u64 = 0x8000_0000;
    while lo + 1 < hi
        invariant
            lo < hi <= 0x8000_0000,
            lo * lo <= n,
            n < hi * hi,
        decreases hi - lo,
    {
        let mid: u64 = lo + (hi - lo) / 2;
        proof {
            assert(lo < mid < hi);
            assert(mid * mid <= 0x4000_0000_0000_0000) by (nonlinear_arith)
                requires
                    mid <= 0x8000_0000;
        }
        if mid * mid <= n {
            lo = mid;
        } else {
            hi = mid;
        }
    }
    proof {
        lemma_isqrt_unique(n as int, lo as int);
    }
    lo
}

} // verus!
