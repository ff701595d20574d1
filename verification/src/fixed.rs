//! Fixed-point numbers: an `i64` counts millionths of a unit.
//!
//! Every operation computes the exact mathematical result and then clamps it
//! into the range of `i64`, so none of them can overflow.

use vstd::prelude::*;

verus! {

/// Raw value of one whole unit.
pub const SCALE: i64 = 1_000_000;

/// `x` limited to the range of `i64`.
pub open spec fn clamp(x: int) -> i64 {
    if x < i64::MIN {
        i64::MIN
    } else if x > i64::MAX {
        i64::MAX
    } else {
        x as i64
    }
}

/// The quotient `n / d` rounded toward zero, for a positive divisor.
pub open spec fn toward_zero(n: int, d: int) -> int {
    if n >= 0 {
        n / d
    } else {
        -((-n) / d)
    }
}

/// The fixed-point product of two raw values, rounded toward zero.
pub open spec fn scaled_product(a: int, b: int) -> int {
    toward_zero(a * b, SCALE as int)
}

/// The saturating fixed-point product.
pub open spec fn product(a: i64, b: i64) -> i64 {
    clamp(scaled_product(a as int, b as int))
}

/// `r` is the integer square root of `n`.
pub open spec fn is_root(r: int, n: int) -> bool {
    0 <= r && r * r <= n < (r + 1) * (r + 1)
}

/// The integer square root of `n`.
pub open spec fn root(n: int) -> int {
    choose|r: int| is_root(r, n)
}

/// The raw value of `n` whole units.
pub fn from_units(n: i32) -> (r: i64)
    ensures
        r == n * SCALE,
{
    (n as i64) * SCALE
}

/// Clamps a wide intermediate result into `i64`.
pub fn saturate(x: i128) -> (r: i64)
    ensures
        r == clamp(x as int),
{
    if x < i64::MIN as i128 {
        i64::MIN
    } else if x > i64::MAX as i128 {
        i64::MAX
    } else {
        x as i64
    }
}

/// Saturating sum.
pub fn plus(a: i64, b: i64) -> (r: i64)
    ensures
        r == clamp(a + b),
{
    saturate(a as i128 + b as i128)
}

/// Saturating difference.
pub fn minus(a: i64, b: i64) -> (r: i64)
    ensures
        r == clamp(a - b),
{
    saturate(a as i128 - b as i128)
}

/// The product of two signed 64-bit values fits in 128 bits.
pub proof fn lemma_product_fits(a: int, b: int)
    requires
        i64::MIN <= a <= i64::MAX,
        i64::MIN <= b <= u64::MAX,
    ensures
        i128::MIN < a * b < i128::MAX,
{
    assert(-0x8000_0000_0000_0000 * 0xffff_ffff_ffff_ffff <= a * b
        <= 0x8000_0000_0000_0000 * 0xffff_ffff_ffff_ffff) by (nonlinear_arith)
        requires
            -0x8000_0000_0000_0000 <= a <= 0x8000_0000_0000_0000,
            -0xffff_ffff_ffff_ffff <= b <= 0xffff_ffff_ffff_ffff,
    ;
}

/// Saturating fixed-point product, rounded toward zero.
pub fn times(a: i64, b: i64) -> (r: i64)
    ensures
        r == product(a, b),
{
    proof {
        lemma_product_fits(a as int, b as int);
    }
    let wide: i128 = (a as i128) * (b as i128);
    saturate(wide / (SCALE as i128))
}

/// Integer square root by bisection.
pub fn isqrt(n: u128) -> (r: u64)
    ensures
        is_root(r as int, n as int),
{
    let mut low: u128 = 0;
    let mut high: u128 = 0x1_0000_0000_0000_0000;
    while high - low > 1
        invariant
            low < high <= 0x1_0000_0000_0000_0000,
            low * low <= n < high * high,
        decreases high - low,
    {
        let mid: u128 = low + (high - low) / 2;
        assert(mid * mid <= 0xffff_ffff_ffff_ffff * 0xffff_ffff_ffff_ffff) by (nonlinear_arith)
            requires
                0 <= mid <= 0xffff_ffff_ffff_ffff,
        ;
        if mid * mid <= n {
            low = mid;
        } else {
            high = mid;
        }
    }
    low as u64
}

/// A number has one integer square root.
pub proof fn lemma_root_unique(r: int, s: int, n: int)
    requires
        is_root(r, n),
        is_root(s, n),
    ensures
        r == s,
{
    if r < s {
        assert((r + 1) * (r + 1) <= s * s) by (nonlinear_arith)
            requires
                0 <= r,
                r + 1 <= s,
        ;
    } else if s < r {
        assert((s + 1) * (s + 1) <= r * r) by (nonlinear_arith)
            requires
                0 <= s,
                s + 1 <= r,
        ;
    }
}

/// Whatever passes for the integer square root of `n` is `root(n)`.
pub proof fn lemma_root(r: int, n: int)
    requires
        is_root(r, n),
    ensures
        root(n) == r,
{
    lemma_root_unique(r, root(n), n);
}

/// Absolute value, widened so that `i64::MIN` has one too.
pub fn absolute(x: i64) -> (r: u128)
    ensures
        r == if x < 0 {
            -x
        } else {
            x as int
        },
{
    if x < 0 {
        (-(x as i128)) as u128
    } else {
        x as u128
    }
}

/// Euclidean length of the vector `(x, y)`.
pub fn magnitude(x: i64, y: i64) -> (r: u64)
    ensures
        r == root(x * x + y * y),
        is_root(r as int, x * x + y * y),
{
    let r = length(x, y);
    proof {
        lemma_root(r as int, x * x + y * y);
    }
    r
}

fn length(x: i64, y: i64) -> (r: u64)
    ensures
        is_root(r as int, x * x + y * y),
{
    let ax: u128 = absolute(x);
    let ay: u128 = absolute(y);
    assert(ax * ax == x * x && ax * ax <= 0x8000_0000_0000_0000 * 0x8000_0000_0000_0000)
        by (nonlinear_arith)
        requires
            ax == x || ax == -x,
            0 <= ax <= 0x8000_0000_0000_0000,
    ;
    assert(ay * ay == y * y && ay * ay <= 0x8000_0000_0000_0000 * 0x8000_0000_0000_0000)
        by (nonlinear_arith)
        requires
            ay == y || ay == -y,
            0 <= ay <= 0x8000_0000_0000_0000,
    ;
    isqrt(ax * ax + ay * ay)
}

} // verus!
