//! Fixed-point arithmetic shared by the whole crate.
//!
//! World coordinates, distances, speeds and durations are signed integers
//! counted in steps of 1/65536: the value `65536` is one grid cell, one
//! cell per second, or one second. A coordinate is an `i32`, so every
//! coordinate lies in a cell whose index is between -32768 and 32767.

use vstd::prelude::*;

verus! {

/// One whole unit (one cell, one second) in fixed-point steps.
pub const UNIT: i32 = 65536;

/// Index of the grid cell that holds the coordinate `x`: `x / UNIT` rounded down.
pub open spec fn cell_index(x: int) -> int {
    x / 65536
}

/// `a / b` rounded toward zero, the rounding of a cast from a real number to an integer.
pub open spec fn div_trunc(a: int, b: int) -> int
    recommends
        b > 0,
{
    if a >= 0 {
        a / b
    } else {
        -((-a) / b)
    }
}

/// `x` limited to the interval from `lo` to `hi`.
pub open spec fn clamp(x: int, lo: int, hi: int) -> int
    recommends
        lo <= hi,
{
    if x < lo {
        lo
    } else if x > hi {
        hi
    } else {
        x
    }
}

/// `x` limited to the range of `i32`.
pub open spec fn fit32(x: int) -> i32 {
    clamp(x, i32::MIN as int, i32::MAX as int) as i32
}

/// `r` is the integer square root of `n`: the largest `r` with `r * r <= n`.
pub open spec fn is_int_sqrt(n: int, r: int) -> bool {
    0 <= r && r * r <= n && n < (r + 1) * (r + 1)
}

/// The integer square root of `n` (for `n >= 0`).
pub open spec fn int_sqrt(n: int) -> int {
    choose|r: int| is_int_sqrt(n, r)
}

/// What is left of a countdown `t` after `dt` has passed: never below zero.
pub open spec fn ticked_down(t: int, dt: int) -> int {
    clamp(t - dt, 0, i32::MAX as int)
}

/// Two integer square roots of the same number are equal.
pub proof fn lemma_int_sqrt_unique(n: int, r1: int, r2: int)
    requires
        is_int_sqrt(n, r1),
        is_int_sqrt(n, r2),
    ensures
        r1 == r2,
{
    if r1 < r2 {
        assert((r1 + 1) * (r1 + 1) <= r2 * r2) by (nonlinear_arith)
            requires
                0 <= r1,
                r1 + 1 <= r2,
        ;
    } else if r2 < r1 {
        assert((r2 + 1) * (r2 + 1) <= r1 * r1) by (nonlinear_arith)
            requires
                0 <= r2,
                r2 + 1 <= r1,
        ;
    }
}

/// How the floor of a negative quotient follows from the quotient of the magnitudes.
pub proof fn lemma_floor_of_negative(m: int, b: int)
    requires
        m > 0,
        b > 0,
    ensures
        (-m) / b == if m % b == 0 {
            -(m / b)
        } else {
            -(m / b) - 1
        },
{
    let q = m / b;
    let r = m % b;
    vstd::arithmetic::div_mod::lemma_fundamental_div_mod(m, b);
    vstd::arithmetic::div_mod::lemma_mod_bound(m, b);
    if r == 0 {
        assert(-m == (-q) * b + 0) by (nonlinear_arith)
            requires
                m == b * q + r,
                r == 0,
        ;
        vstd::arithmetic::div_mod::lemma_fundamental_div_mod_converse(-m, b, -q, 0);
    } else {
        assert(-m == (-q - 1) * b + (b - r)) by (nonlinear_arith)
            requires
                m == b * q + r,
        ;
        vstd::arithmetic::div_mod::lemma_fundamental_div_mod_converse(-m, b, -q - 1, b - r);
    }
}

/// Every natural number has an integer square root, and `int_sqrt` names it.
pub proof fn lemma_int_sqrt_exists(n: nat)
    ensures
        is_int_sqrt(n as int, int_sqrt(n as int)),
    decreases n,
{
    if n == 0 {
        assert(is_int_sqrt(0, 0));
    } else {
        lemma_int_sqrt_exists((n - 1) as nat);
        let r = int_sqrt(n - 1);
        if (r + 1) * (r + 1) <= n {
            assert((r + 1) * (r + 1) < (r + 2) * (r + 2)) by (nonlinear_arith)
                requires
                    0 <= r,
            ;
            assert(is_int_sqrt(n as int, r + 1));
        } else {
            assert(is_int_sqrt(n as int, r));
        }
    }
}

/// The cell index of a coordinate.
pub fn cell_of(x: i32) -> (c: i32)
    ensures
        c == cell_index(x as int),
        -32768 <= c <= 32767,
{
    let shifted: i64 = x as i64 + 2147483648i64;
    let q: i64 = shifted / 65536;
    (q - 32768) as i32
}

/// The cell index of a coordinate that may lie outside the `i32` range.
pub fn cell_of_wide(x: i64) -> (c: i64)
    ensures
        c == cell_index(x as int),
{
    if x >= 0 {
        x / 65536
    } else {
        let q: i64 = (x + 1) / 65536;
        q - 1
    }
}

/// Division rounded toward zero.
pub fn div_toward_zero(a: i64, b: i64) -> (q: i64)
    requires
        b > 0,
    ensures
        q == div_trunc(a as int, b as int),
{
    if a == i64::MIN {
        // -a does not fit; divide the magnitude as an unsigned number
        let m: u64 = 9223372036854775808u64;
        let q: u64 = m / (b as u64);
        if q == m {
            i64::MIN
        } else {
            -(q as i64)
        }
    } else {
        a / b
    }
}

/// `x` limited to the range of `i32`.
pub fn clamp_to_i32(x: i64) -> (r: i32)
    ensures
        r == clamp(x as int, i32::MIN as int, i32::MAX as int),
{
    if x < -2147483648i64 {
        i32::MIN
    } else if x > 2147483647i64 {
        i32::MAX
    } else {
        x as i32
    }
}

/// Counts a timer down by `dt`, stopping at zero.
pub fn tick_down(t: i32, dt: i32) -> (r: i32)
    ensures
        r == ticked_down(t as int, dt as int),
        r >= 0,
{
    let d: i64 = t as i64 - dt as i64;
    if d < 0 {
        0
    } else if d > 2147483647i64 {
        i32::MAX
    } else {
        d as i32
    }
}

/// `x` limited to the range of `i64`.
pub fn clamp_to_i64(x: i128) -> (r: i64)
    ensures
        r == clamp(x as int, i64::MIN as int, i64::MAX as int),
{
    if x < -9223372036854775808i128 {
        i64::MIN
    } else if x > 9223372036854775807i128 {
        i64::MAX
    } else {
        x as i64
    }
}

/// The product of two 64-bit numbers, which always fits in 128 bits.
pub fn mul_wide(a: i64, b: i64) -> (p: i128)
    ensures
        p == a * b,
        -0x4000_0000_0000_0000_0000_0000_0000_0000 <= p <= 0x4000_0000_0000_0000_0000_0000_0000_0000,
{
    let x: i128 = a as i128;
    let y: i128 = b as i128;
    assert(-0x4000_0000_0000_0000_0000_0000_0000_0000 <= x * y
        <= 0x4000_0000_0000_0000_0000_0000_0000_0000) by (nonlinear_arith)
        requires
            -0x8000_0000_0000_0000 <= x <= 0x8000_0000_0000_0000,
            -0x8000_0000_0000_0000 <= y <= 0x8000_0000_0000_0000,
    ;
    x * y
}

/// Division rounded down (toward negative infinity).
pub fn div_floor_wide(a: i128, b: i128) -> (q: i128)
    requires
        b > 0,
        a > i128::MIN,
    ensures
        q == a / b,
{
    if a >= 0 {
        a / b
    } else {
        let m: i128 = -a;
        let q: i128 = m / b;
        let r: i128 = m % b;
        proof {
            lemma_floor_of_negative(m as int, b as int);
        }
        if r == 0 {
            -q
        } else {
            -q - 1
        }
    }
}

/// Division rounded toward zero, on 128-bit numbers.
pub fn div_toward_zero_wide(a: i128, b: i128) -> (q: i128)
    requires
        b > 0,
        a > i128::MIN,
    ensures
        q == div_trunc(a as int, b as int),
{
    a / b
}

/// Integer square root by bisection.
pub fn isqrt(n: u128) -> (r: u64)
    ensures
        is_int_sqrt(n as int, r as int),
        r == int_sqrt(n as int),
{
    let mut lo: u128 = 0;
    let mut hi: u128 = 0x1_0000_0000_0000_0000;
    assert(0x1_0000_0000_0000_0000 * 0x1_0000_0000_0000_0000 > n) by (nonlinear_arith)
        requires
            n <= u128::MAX,
    ;
    while hi - lo > 1
        invariant
            lo < hi <= 0x1_0000_0000_0000_0000,
            lo * lo <= n,
            n < hi * hi,
        decreases hi - lo,
    {
        let mid: u128 = lo + (hi - lo) / 2;
        assert(mid * mid < 0x1_0000_0000_0000_0000 * 0x1_0000_0000_0000_0000) by (nonlinear_arith)
            requires
                mid < 0x1_0000_0000_0000_0000,
        ;
        if mid * mid <= n {
            lo = mid;
        } else {
            hi = mid;
        }
    }
    proof {
        assert(hi == lo + 1);
        assert(is_int_sqrt(n as int, lo as int));
        lemma_int_sqrt_exists(n as nat);
        lemma_int_sqrt_unique(n as int, lo as int, int_sqrt(n as int));
    }
    lo as u64
}

} // verus!
