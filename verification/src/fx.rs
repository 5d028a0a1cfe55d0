//! Saturating signed fixed-point scalars.
//!
//! A scalar is an `i64` holding a real value scaled by `FX_ONE` (2^40), so a
//! raw value of `FX_ONE` stands for 1.0 and the resolution is 2^-40. Every
//! operation is total: results are truncated toward zero and saturate at the
//! `i64` range, and a division by zero saturates by the sign of the dividend
//! (the fixed-point analogue of an infinity). Each executable operation is
//! specified exactly by a spec function of the same name with a `_v` suffix,
//! so callers reason about fixed-point arithmetic purely at the spec level.

use vstd::prelude::*;

verus! {

/// The fixed-point scale: raw representation of the real number 1.0 (2^40).
pub const FX_ONE: i64 = 1099511627776;

/// Clamp a mathematical integer into the `i64` range.
pub open spec fn sat_i64(x: int) -> i64 {
    if x > i64::MAX as int {
        i64::MAX
    } else if x < i64::MIN as int {
        i64::MIN
    } else {
        x as i64
    }
}

/// Absolute value of a mathematical integer.
pub open spec fn abs_int(x: int) -> int {
    if x >= 0 {
        x
    } else {
        -x
    }
}

/// Saturating fixed-point sum.
pub open spec fn fx_add_v(a: i64, b: i64) -> i64 {
    sat_i64(a + b)
}

/// Saturating fixed-point difference.
pub open spec fn fx_sub_v(a: i64, b: i64) -> i64 {
    sat_i64(a - b)
}

/// Saturating fixed-point negation.
pub open spec fn fx_neg_v(a: i64) -> i64 {
    sat_i64(-a)
}

/// Saturating fixed-point product: the exact product of the magnitudes,
/// rescaled by `FX_ONE` truncating toward zero, with the sign of the inputs.
pub open spec fn fx_mul_v(a: i64, b: i64) -> i64 {
    let m = (abs_int(a as int) * abs_int(b as int)) / (FX_ONE as int);
    if (a < 0) != (b < 0) {
        sat_i64(-m)
    } else {
        sat_i64(m)
    }
}

/// Saturating fixed-point quotient, truncating toward zero. A zero divisor
/// saturates by the sign of the dividend, and `0 / 0` is 0.
pub open spec fn fx_div_v(a: i64, b: i64) -> i64 {
    if b == 0 {
        if a > 0 {
            i64::MAX
        } else if a < 0 {
            i64::MIN
        } else {
            0
        }
    } else {
        let m = (abs_int(a as int) * (FX_ONE as int)) / abs_int(b as int);
        if (a < 0) != (b < 0) {
            sat_i64(-m)
        } else {
            sat_i64(m)
        }
    }
}

/// The integer square root: the unique `r >= 0` with `r^2 <= n < (r+1)^2`
/// (for `n < 0` there is no such `r` and the value is unconstrained).
pub open spec fn sqrt_floor(n: int) -> int {
    choose|r: int| 0 <= r && #[trigger] (r * r) <= n && n < (r + 1) * (r + 1)
}

/// Fixed-point square root of a non-negative scalar; a negative or zero
/// argument gives 0.
pub open spec fn fx_sqrt_v(a: i64) -> i64 {
    if a <= 0 {
        0
    } else {
        sqrt_floor((a as int) * (FX_ONE as int)) as i64
    }
}

/// `sqrt_floor` is pinned down by any witness of its defining property.
pub proof fn lemma_sqrt_floor_is(n: int, r: int)
    requires
        0 <= r,
        r * r <= n,
        n < ((r + 1) * (r + 1)),
    ensures
        sqrt_floor(n) == r,
{
    assert(0 <= r && r * r <= n && n < ((r + 1) * (r + 1)));
    let c = sqrt_floor(n);
    assert(0 <= c && c * c <= n && n < ((c + 1) * (c + 1)));
    if c < r {
        assert((c + 1) * (c + 1) <= r * r) by (nonlinear_arith)
            requires
                0 <= c,
                c < r;
        assert(false);
    }
    if r < c {
        assert((r + 1) * (r + 1) <= c * c) by (nonlinear_arith)
            requires
                0 <= r,
                r < c;
        assert(false);
    }
}

/// Magnitude of a signed scalar as an unsigned 128-bit value.
fn magnitude(a: i64) -> (m: u128)
    ensures
        m as int == abs_int(a as int),
{
    if a >= 0 {
        a as u128
    } else {
        (-(a as i128)) as u128
    }
}

/// Reattach a sign to an unsigned magnitude, saturating at the `i64` range.
fn saturate_signed(q: u128, neg: bool) -> (r: i64)
    ensures
        neg ==> r == sat_i64(-(q as int)),
        !neg ==> r == sat_i64(q as int),
{
    if neg {
        if q >= 9223372036854775808u128 {
            i64::MIN
        } else {
            (-(q as i128)) as i64
        }
    } else {
        if q > 9223372036854775807u128 {
            i64::MAX
        } else {
            q as i64
        }
    }
}

/// Saturating fixed-point addition.
pub fn fx_add(a: i64, b: i64) -> (r: i64)
    ensures
        r == fx_add_v(a, b),
{
    let s: i128 = a as i128 + b as i128;
    if s > i64::MAX as i128 {
        i64::MAX
    } else if s < i64::MIN as i128 {
        i64::MIN
    } else {
        s as i64
    }
}

/// Saturating fixed-point subtraction.
pub fn fx_sub(a: i64, b: i64) -> (r: i64)
    ensures
        r == fx_sub_v(a, b),
{
    let s: i128 = a as i128 - b as i128;
    if s > i64::MAX as i128 {
        i64::MAX
    } else if s < i64::MIN as i128 {
        i64::MIN
    } else {
        s as i64
    }
}

/// Saturating fixed-point negation.
pub fn fx_neg(a: i64) -> (r: i64)
    ensures
        r == fx_neg_v(a),
{
    if a == i64::MIN {
        i64::MAX
    } else {
        -a
    }
}

/// Saturating fixed-point multiplication.
pub fn fx_mul(a: i64, b: i64) -> (r: i64)
    ensures
        r == fx_mul_v(a, b),
{
    let ma: u128 = magnitude(a);
    let mb: u128 = magnitude(b);
    proof {
        assert(ma as int * mb as int <= 0x40000000000000000000000000000000) by (nonlinear_arith)
            requires
                ma as int <= 0x8000000000000000,
                mb as int <= 0x8000000000000000;
    }
    let p: u128 = ma * mb;
    let q: u128 = p / 1099511627776u128;
    saturate_signed(q, (a < 0) != (b < 0))
}

/// Saturating fixed-point division.
pub fn fx_div(a: i64, b: i64) -> (r: i64)
    ensures
        r == fx_div_v(a, b),
{
    if b == 0 {
        if a > 0 {
            i64::MAX
        } else if a < 0 {
            i64::MIN
        } else {
            0
        }
    } else {
        let ma: u128 = magnitude(a);
        let mb: u128 = magnitude(b);
        let p: u128 = ma * 1099511627776u128;
        let q: u128 = p / mb;
        saturate_signed(q, (a < 0) != (b < 0))
    }
}

/// Integer square root of an unsigned 128-bit value, by bisection.
fn isqrt_u128(n: u128) -> (r: u128)
    ensures
        r as int * r as int <= n as int,
        (n as int) < ((r as int + 1) * (r as int + 1)),
{
    let mut lo: u128 = 0;
    let mut hi: u128 = 18446744073709551615u128;
    proof {
        assert((hi as int + 1) * (hi as int + 1) > n as int) by (nonlinear_arith)
            requires
                hi as int + 1 == 0x10000000000000000,
                n as int <= 0xffffffffffffffffffffffffffffffff;
    }
    while lo < hi
        invariant
            lo <= hi,
            hi <= 18446744073709551615u128,
            lo as int * lo as int <= n as int,
            (n as int) < ((hi as int + 1) * (hi as int + 1)),
        decreases hi - lo,
    {
        let mid: u128 = lo + (hi - lo + 1) / 2;
        proof {
            assert(mid as int * mid as int <= 0xfffffffffffffffe0000000000000001)
                by (nonlinear_arith)
                requires
                    mid as int <= 0xffffffffffffffff;
        }
        if mid * mid <= n {
            lo = mid;
        } else {
            hi = mid - 1;
        }
    }
    lo
}

/// Saturating fixed-point square root.
pub fn fx_sqrt(a: i64) -> (r: i64)
    ensures
        r == fx_sqrt_v(a),
{
    if a <= 0 {
        return 0;
    }
    let n: u128 = (a as u128) * 1099511627776u128;
    let s: u128 = isqrt_u128(n);
    proof {
        assert((s as int) < 0x10000000000000) by (nonlinear_arith)
            requires
                s as int * s as int <= n as int,
                (n as int) < 0x100000000000000000000000000;
        lemma_sqrt_floor_is(n as int, s as int);
    }
    s as i64
}

} // verus!
