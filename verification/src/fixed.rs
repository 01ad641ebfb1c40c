//! Fixed-point scalar arithmetic.
//!
//! A quantity is a raw `i64` holding six decimal places: one whole unit is
//! `SCALE` raw steps.  Every operation is total: results that would leave
//! the representable range saturate, and each contract states the exact raw
//! value produced, over the integer model.

use vstd::prelude::*;

verus! {

/// Raw steps per whole unit.
pub const SCALE: i64 = 1_000_000;

/// Width of the band around zero treated as zero.  Accumulated rounding
/// routinely produces tiny nonzero values that must count as zero, so
/// comparisons against zero use this band, never exact equality.
pub const EPSILON: i64 = 1;

/// Magnitude of an integer.
pub open spec fn iabs(x: int) -> int {
    if x < 0 {
        -x
    } else {
        x
    }
}

/// Truncating division (rounds toward zero), the rounding used by all
/// fixed-point operations.  Meaningful for `d != 0`.
pub open spec fn tdiv(p: int, d: int) -> int {
    let m = iabs(p) / iabs(d);
    if (p < 0) != (d < 0) {
        -m
    } else {
        m
    }
}

/// Clamp an unbounded integer into the raw `i64` range.
pub open spec fn sat64(x: int) -> int {
    if x > i64::MAX {
        i64::MAX as int
    } else if x < i64::MIN {
        i64::MIN as int
    } else {
        x
    }
}

/// Raw value of the sum of two raw values.
pub open spec fn fx_add_s(a: int, b: int) -> int {
    sat64(a + b)
}

/// Raw value of the difference of two raw values.
pub open spec fn fx_sub_s(a: int, b: int) -> int {
    sat64(a - b)
}

/// Raw value of the product of two raw values.
pub open spec fn fx_mul_s(a: int, b: int) -> int {
    sat64(tdiv(a * b, SCALE as int))
}

/// Raw value of the quotient of two raw values.  A zero divisor saturates
/// in the direction of the dividend's sign.
pub open spec fn fx_div_s(a: int, b: int) -> int {
    if b == 0 {
        if a > 0 {
            i64::MAX as int
        } else if a < 0 {
            i64::MIN as int
        } else {
            0
        }
    } else {
        sat64(tdiv(a * SCALE, b))
    }
}

/// Floor of the square root of a nonnegative integer, by halving digits.
pub open spec fn sqrt_floor(n: int) -> int
    decreases n,
{
    if n <= 0 {
        0
    } else {
        let h = 2 * sqrt_floor(n / 4);
        if (h + 1) * (h + 1) <= n {
            h + 1
        } else {
            h
        }
    }
}

/// `sqrt_floor` is the floor of the square root.
pub proof fn lemma_sqrt_floor(n: int)
    requires
        n >= 0,
    ensures
        sqrt_floor(n) >= 0,
        sqrt_floor(n) * sqrt_floor(n) <= n,
        n < (sqrt_floor(n) + 1) * (sqrt_floor(n) + 1),
    decreases n,
{
    if n <= 0 {
    } else {
        lemma_sqrt_floor(n / 4);
        let s = sqrt_floor(n / 4);
        let h = 2 * s;
        assert(h * h <= 4 * (n / 4)) by (nonlinear_arith)
            requires
                s * s <= n / 4,
                h == 2 * s,
        {}
        assert(4 * (n / 4) <= n) by (nonlinear_arith)
            requires
                n >= 0,
        {}
        assert(4 * (n / 4) + 4 > n) by (nonlinear_arith)
            requires
                n >= 0,
        {}
        assert(n < (h + 2) * (h + 2)) by (nonlinear_arith)
            requires
                n / 4 < (s + 1) * (s + 1),
                h == 2 * s,
                n >= 0,
                4 * (n / 4) + 4 > n,
        {}
        let r = sqrt_floor(n);
        assert(r == if (h + 1) * (h + 1) <= n { h + 1 } else { h });
        if (h + 1) * (h + 1) <= n {
            assert(n < (r + 1) * (r + 1));
        } else {
            assert(n < (r + 1) * (r + 1));
        }
    }
}

/// Two integers whose squares bracket `n` the same way are equal.
pub proof fn lemma_sqrt_unique(n: int, a: int, b: int)
    requires
        a >= 0,
        b >= 0,
        a * a <= n,
        n < (a + 1) * (a + 1),
        b * b <= n,
        n < (b + 1) * (b + 1),
    ensures
        a == b,
{
    assert(a == b) by (nonlinear_arith)
        requires
            a >= 0,
            b >= 0,
            a * a <= n,
            n < (a + 1) * (a + 1),
            b * b <= n,
            n < (b + 1) * (b + 1),
    {}
}

/// Floor of the cube root of a nonnegative integer, by halving digits.
pub open spec fn cbrt_floor(n: int) -> int
    decreases n,
{
    if n <= 0 {
        0
    } else {
        let h = 2 * cbrt_floor(n / 8);
        if (h + 1) * (h + 1) * (h + 1) <= n {
            h + 1
        } else {
            h
        }
    }
}

/// `cbrt_floor` is the floor of the cube root.
pub proof fn lemma_cbrt_floor(n: int)
    requires
        n >= 0,
    ensures
        cbrt_floor(n) >= 0,
        cbrt_floor(n) * cbrt_floor(n) * cbrt_floor(n) <= n,
        n < (cbrt_floor(n) + 1) * (cbrt_floor(n) + 1) * (cbrt_floor(n) + 1),
    decreases n,
{
    if n <= 0 {
    } else {
        lemma_cbrt_floor(n / 8);
        let s = cbrt_floor(n / 8);
        let h = 2 * s;
        assert(h * h * h <= 8 * (n / 8)) by (nonlinear_arith)
            requires
                s * s * s <= n / 8,
                h == 2 * s,
        {}
        assert(8 * (n / 8) <= n && 8 * (n / 8) + 8 > n) by (nonlinear_arith)
            requires
                n >= 0,
        {}
        assert(n < (h + 2) * (h + 2) * (h + 2)) by (nonlinear_arith)
            requires
                n / 8 < (s + 1) * (s + 1) * (s + 1),
                h == 2 * s,
                s >= 0,
                n >= 0,
                8 * (n / 8) + 8 > n,
        {}
        let r = cbrt_floor(n);
        assert(r == if (h + 1) * (h + 1) * (h + 1) <= n { h + 1 } else { h });
        if (h + 1) * (h + 1) * (h + 1) <= n {
            assert(n < (r + 1) * (r + 1) * (r + 1));
        } else {
            assert(n < (r + 1) * (r + 1) * (r + 1));
        }
    }
}

/// Raw value of the square root of a raw value; nonpositive inputs give 0.
pub open spec fn fx_sqrt_s(a: int) -> int {
    if a <= 0 {
        0
    } else {
        sqrt_floor(a * SCALE)
    }
}

/// True when the raw value lies inside the zero band.
pub fn is_zero(x: i64) -> (r: bool)
    ensures
        r == (-EPSILON <= x && x <= EPSILON),
{
    -EPSILON <= x && x <= EPSILON
}

/// True when the raw value is strictly above the zero band.
pub fn is_positive(x: i64) -> (r: bool)
    ensures
        r == (x > EPSILON),
{
    x > EPSILON
}

/// Saturating fixed-point sum.
pub fn fx_add(a: i64, b: i64) -> (r: i64)
    ensures
        r as int == fx_add_s(a as int, b as int),
{
    let s: i128 = a as i128 + b as i128;
    narrow64(s)
}

/// Saturating fixed-point difference.
pub fn fx_sub(a: i64, b: i64) -> (r: i64)
    ensures
        r as int == fx_sub_s(a as int, b as int),
{
    let s: i128 = a as i128 - b as i128;
    narrow64(s)
}

/// Saturating fixed-point negation.
pub fn fx_neg(a: i64) -> (r: i64)
    ensures
        r as int == sat64(-(a as int)),
{
    if a == i64::MIN {
        i64::MAX
    } else {
        -a
    }
}

/// Saturating fixed-point product.
pub fn fx_mul(a: i64, b: i64) -> (r: i64)
    ensures
        r as int == fx_mul_s(a as int, b as int),
{
    proof {
        assert((a as int) * (b as int) <= i128::MAX && (a as int) * (b as int) >= i128::MIN)
            by (nonlinear_arith)
            requires
                i64::MIN <= a <= i64::MAX,
                i64::MIN <= b <= i64::MAX,
        {}
    }
    let p: i128 = (a as i128) * (b as i128);
    let q: i128 = p / (SCALE as i128);
    narrow64(q)
}

/// Saturating fixed-point quotient; a zero divisor saturates in the
/// direction of the dividend's sign.
pub fn fx_div(a: i64, b: i64) -> (r: i64)
    ensures
        r as int == fx_div_s(a as int, b as int),
{
    if b == 0 {
        if a > 0 {
            i64::MAX
        } else if a < 0 {
            i64::MIN
        } else {
            0
        }
    } else {
        let am: u128 = if a < 0 {
            (-(a as i128)) as u128
        } else {
            a as u128
        };
        let bm: u128 = if b < 0 {
            (-(b as i128)) as u128
        } else {
            b as u128
        };
        proof {
            assert((am as int) * (SCALE as int) <= u128::MAX) by (nonlinear_arith)
                requires
                    am as int <= 0x8000_0000_0000_0000,
            {}
        }
        let pm: u128 = am * (SCALE as u128);
        let qm: u128 = pm / bm;
        let q: i128 = if (a < 0) != (b < 0) {
            -(qm as i128)
        } else {
            qm as i128
        };
        narrow64(q)
    }
}

/// Magnitude of a raw value (saturating at the extreme).
pub fn fx_abs(a: i64) -> (r: i64)
    ensures
        r as int == sat64(if a < 0 { -(a as int) } else { a as int }),
{
    if a == i64::MIN {
        i64::MAX
    } else if a < 0 {
        -a
    } else {
        a
    }
}

/// Fixed-point square root; nonpositive inputs give 0.
pub fn fx_sqrt(a: i64) -> (r: i64)
    ensures
        r as int == fx_sqrt_s(a as int),
        r >= 0,
{
    if a <= 0 {
        return 0;
    }
    proof {
        assert((a as int) * (SCALE as int) <= i64::MAX * (SCALE as int)) by (nonlinear_arith)
            requires
                0 < a <= i64::MAX,
        {}
    }
    let n: u128 = (a as u128) * (SCALE as u128);
    let s = isqrt(n);
    proof {
        lemma_sqrt_floor(n as int);
        assert(sqrt_floor(n as int) <= 0x8000_0000_0000i64 as int) by (nonlinear_arith)
            requires
                sqrt_floor(n as int) >= 0,
                sqrt_floor(n as int) * sqrt_floor(n as int) <= n as int,
                n as int <= i64::MAX * (SCALE as int),
        {}
    }
    s as i64
}

/// Floor square root of an arbitrary `u128`.
pub fn isqrt(n: u128) -> (r: u128)
    ensures
        r as int == sqrt_floor(n as int),
{
    let mut lo: u128 = 0;
    let mut hi: u128 = 0x1_0000_0000_0000_0000u128;
    // Narrow [lo, hi) around the root: lo stays at or below it, hi above.
    while hi - lo > 1
        invariant
            lo < hi,
            hi <= 0x1_0000_0000_0000_0000u128,
            (lo as int) * (lo as int) <= n as int,
            (n as int) < (hi as int) * (hi as int),
        decreases hi - lo,
    {
        let mid: u128 = lo + (hi - lo) / 2;
        match mid.checked_mul(mid) {
            Some(sq) => {
                if sq <= n {
                    lo = mid;
                } else {
                    hi = mid;
                }
            },
            None => {
                // checked_mul answered None, so the square exceeds u128.
                hi = mid;
            },
        }
    }
    proof {
        lemma_sqrt_floor(n as int);
        lemma_sqrt_unique(n as int, lo as int, sqrt_floor(n as int));
    }
    lo
}

/// Floor cube root of an arbitrary `u128`.
pub fn icbrt(n: u128) -> (r: u128)
    ensures
        r as int == cbrt_floor(n as int),
{
    let mut lo: u128 = 0;
    let mut hi: u128 = 0x800_0000_0000u128;
    proof {
        assert(0x800_0000_0000int * 0x800_0000_0000int * 0x800_0000_0000int > u128::MAX as int)
            by (nonlinear_arith);
    }
    // Narrow [lo, hi) around the root: lo stays at or below it, hi above.
    while hi - lo > 1
        invariant
            lo < hi,
            hi <= 0x800_0000_0000u128,
            (lo as int) * (lo as int) * (lo as int) <= n as int,
            (n as int) < (hi as int) * (hi as int) * (hi as int),
        decreases hi - lo,
    {
        let mid: u128 = lo + (hi - lo) / 2;
        let cube = match mid.checked_mul(mid) {
            Some(sq) => sq.checked_mul(mid),
            None => None,
        };
        match cube {
            Some(c) => {
                if c <= n {
                    lo = mid;
                } else {
                    hi = mid;
                }
            },
            None => {
                proof {
                    // Either square or cube overflowed; the cube exceeds n
                    // in both cases, since mid is at least one.
                    assert((mid as int) * (mid as int) * (mid as int) > n as int)
                        by (nonlinear_arith)
                        requires
                            mid >= 1,
                            n <= u128::MAX,
                            ((mid as int) * (mid as int) > u128::MAX as int)
                                || ((mid as int) * (mid as int) * (mid as int)
                                    > u128::MAX as int),
                    {}
                }
                hi = mid;
            },
        }
    }
    proof {
        lemma_cbrt_floor(n as int);
        let c = cbrt_floor(n as int);
        assert(lo as int == c) by (nonlinear_arith)
            requires
                lo >= 0,
                c >= 0,
                (lo as int) * (lo as int) * (lo as int) <= n as int,
                (n as int) < (lo as int + 1) * (lo as int + 1) * (lo as int + 1),
                c * c * c <= n as int,
                (n as int) < (c + 1) * (c + 1) * (c + 1),
        {}
    }
    lo
}

/// Clamp a wide intermediate into the raw `i64` range.
pub fn narrow64(x: i128) -> (r: i64)
    ensures
        r as int == sat64(x as int),
{
    if x > i64::MAX as i128 {
        i64::MAX
    } else if x < i64::MIN as i128 {
        i64::MIN
    } else {
        x as i64
    }
}

} // verus!
