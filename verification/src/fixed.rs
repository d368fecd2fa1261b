//! Fixed-point scalars.
//!
//! The whole library measures continuous quantities (coordinates, gradients,
//! noise values, amplitudes) in signed 64-bit fixed-point numbers scaled by
//! `ONE`: the integer `v` stands for the real number `v / ONE`. Products and
//! quotients round toward zero, exactly as the executable operators do, and
//! every spec function here mirrors that rounding bit for bit.

use vstd::prelude::*;

verus! {

use vstd::arithmetic::div_mod::lemma_div_is_ordered;
use vstd::arithmetic::div_mod::lemma_div_by_multiple;

/// The fixed-point scale: the representation of the real number 1.
pub const ONE: i64 = 65536;

/// `sqrt(2)` in fixed point, rounded to nearest.
pub const SQRT_2: i64 = 92682;

/// `1 / sqrt(2)` in fixed point, rounded to nearest.
pub const FRAC_1_SQRT_2: i64 = 46341;

/// The mathematical integer fits in an `i64`.
pub open spec fn fits_i64(x: int) -> bool {
    i64::MIN <= x <= i64::MAX
}

/// Division by the scale, rounding toward zero (the rounding of `/` on
/// machine integers).
pub open spec fn scale_down(x: int) -> int {
    if x >= 0 {
        x / 65536
    } else {
        -((-x) / 65536)
    }
}

/// The fixed-point product: `a * b` brought back to scale, rounded toward
/// zero.
pub open spec fn fxmul(a: int, b: int) -> int {
    scale_down(a * b)
}

/// The fixed-point quotient `a / b` for a positive divisor, rounded toward
/// zero.
pub open spec fn fxdiv(a: int, b: int) -> int {
    if a >= 0 {
        a * 65536 / b
    } else {
        -((-a) * 65536 / b)
    }
}

/// Linear interpolation from `a` (at `t == 0`) to `b` (at `t == ONE`).
pub open spec fn fxlerp(a: int, b: int, t: int) -> int {
    a + fxmul(b - a, t)
}

/// `v` forced into the closed interval `[lo, hi]`.
pub open spec fn spec_clamp(v: int, lo: int, hi: int) -> int {
    if v < lo {
        lo
    } else if v > hi {
        hi
    } else {
        v
    }
}

/// Fixed-point multiplication.
pub fn fx_mul(a: i64, b: i64) -> (r: i64)
    requires
        fits_i64(fxmul(a as int, b as int)),
    ensures
        r as int == fxmul(a as int, b as int),
{
    proof {
        assert(ONE == 65536);
    }
    let p: i128 = (a as i128) * (b as i128);
    (p / 65536i128) as i64
}

/// Fixed-point division by a positive divisor.
pub fn fx_div(a: i64, b: i64) -> (r: i64)
    requires
        b > 0,
        fits_i64(fxdiv(a as int, b as int)),
    ensures
        r as int == fxdiv(a as int, b as int),
{
    proof {
        assert(ONE == 65536);
    }
    let p: i128 = (a as i128) * 65536i128;
    let q: i128 = p / (b as i128);
    proof {
        if a < 0 {
            assert(-p == (-(a as int)) * 65536) by {
                vstd::arithmetic::mul::lemma_mul_unary_negation(a as int, 65536);
            }
            assert(q == -((-(a as int)) * 65536 / (b as int)));
        }
    }
    q as i64
}

/// Linear interpolation between two samples; `t` is a blend parameter in
/// `[0, ONE]`.
pub fn fx_lerp(a: i64, b: i64, t: i64) -> (r: i64)
    requires
        0 <= t <= ONE,
    ensures
        r as int == fxlerp(a as int, b as int, t as int),
{
    proof {
        lemma_fxlerp_minmax(a as int, b as int, t as int);
    }
    proof {
        assert(ONE == 65536);
    }
    let d: i128 = (b as i128) - (a as i128);
    let q: i128 = d * (t as i128) / 65536i128;
    ((a as i128) + q) as i64
}

/// `v` forced into `[lo, hi]`.
pub fn clamp_value(v: i64, lo: i64, hi: i64) -> (r: i64)
    requires
        lo <= hi,
    ensures
        r as int == spec_clamp(v as int, lo as int, hi as int),
{
    if v < lo {
        lo
    } else if v > hi {
        hi
    } else {
        v
    }
}

/// `x` wrapped into the half-open interval `[lo, hi)` by modular arithmetic,
/// with the sign corrected so the result never lies below `lo`.
pub open spec fn spec_wrap(x: int, lo: int, hi: int) -> int {
    lo + (x - lo) % (hi - lo)
}

/// Wrap `x` into `[lo, hi)`.
pub fn wrap_value(x: i64, lo: i64, hi: i64) -> (r: i64)
    requires
        lo < hi,
        fits_i64(x - lo),
        fits_i64(lo - x),
        fits_i64(hi - lo),
    ensures
        r as int == spec_wrap(x as int, lo as int, hi as int),
        lo <= r < hi,
{
    let range: i64 = hi - lo;
    let shifted: i64 = x - lo;
    let w: i64;
    if shifted >= 0 {
        w = shifted % range;
        proof {
            vstd::arithmetic::div_mod::lemma_mod_bound(shifted as int, range as int);
        }
    } else {
        let neg: i64 = -shifted;
        let m: i64 = neg % range;
        proof {
            vstd::arithmetic::div_mod::lemma_mod_bound(neg as int, range as int);
        }
        if m == 0 {
            w = 0;
            proof {
                vstd::arithmetic::div_mod::lemma_fundamental_div_mod(neg as int, range as int);
                let q = (neg as int) / (range as int);
                assert(shifted as int == (-q) * (range as int) + 0) by (nonlinear_arith)
                    requires
                        neg as int == (range as int) * q,
                        shifted as int == -(neg as int),
                ;
                vstd::arithmetic::div_mod::lemma_fundamental_div_mod_converse(
                    shifted as int,
                    range as int,
                    -q,
                    0,
                );
            }
        } else {
            w = range - m;
            proof {
                vstd::arithmetic::div_mod::lemma_fundamental_div_mod(neg as int, range as int);
                let q = (neg as int) / (range as int);
                assert(shifted as int == (-q - 1) * (range as int) + ((range - m) as int))
                    by (nonlinear_arith)
                    requires
                        neg as int == (range as int) * q + (m as int),
                        shifted as int == -(neg as int),
                ;
                vstd::arithmetic::div_mod::lemma_fundamental_div_mod_converse(
                    shifted as int,
                    range as int,
                    -q - 1,
                    range - m,
                );
            }
        }
    }
    w + lo
}

/// Rounding toward zero never enlarges a bound: if `|x| <= m * ONE` then
/// `|scale_down(x)| <= m`.
pub proof fn lemma_scale_down_bound(x: int, m: int)
    requires
        0 <= m,
        -m * 65536 <= x <= m * 65536,
    ensures
        -m <= scale_down(x) <= m,
{
    if x >= 0 {
        lemma_div_is_ordered(x, m * 65536, 65536);
        lemma_div_by_multiple(m, 65536);
        assert(x / 65536 >= 0) by {
            vstd::arithmetic::div_mod::lemma_div_pos_is_pos(x, 65536);
        }
    } else {
        lemma_div_is_ordered(-x, m * 65536, 65536);
        lemma_div_by_multiple(m, 65536);
        assert((-x) / 65536 >= 0) by {
            vstd::arithmetic::div_mod::lemma_div_pos_is_pos(-x, 65536);
        }
    }
}

/// A fixed-point product against a blend parameter in `[0, ONE]` keeps the
/// other factor's bound.
pub proof fn lemma_fxmul_unit(a: int, b: int, m: int)
    requires
        0 <= m,
        -m <= a <= m,
        0 <= b <= ONE,
    ensures
        -m <= fxmul(a, b) <= m,
{
    assert(-(m * 65536) <= a * b <= m * 65536) by (nonlinear_arith)
        requires
            0 <= m,
            -m <= a <= m,
            0 <= b <= 65536,
    ;
    lemma_scale_down_bound(a * b, m);
}

/// A fixed-point product against a factor within `[-ONE, ONE]` keeps the
/// other factor's bound.
pub proof fn lemma_fxmul_unit_abs(a: int, b: int, m: int)
    requires
        0 <= m,
        -m <= a <= m,
        -ONE <= b <= ONE,
    ensures
        -m <= fxmul(a, b) <= m,
{
    assert(-(m * 65536) <= a * b <= m * 65536) by (nonlinear_arith)
        requires
            0 <= m,
            -m <= a <= m,
            -65536 <= b <= 65536,
    ;
    lemma_scale_down_bound(a * b, m);
}

/// Scaling a coordinate in `[0, ONE)` by a positive frequency lands the cell
/// position in `[0, frequency)`.
pub proof fn lemma_cell_bounds(x: int, freq: int)
    requires
        0 <= x < ONE,
        0 < freq,
    ensures
        0 <= fxmul(x, freq) < freq,
{
    vstd::arithmetic::mul::lemma_mul_nonnegative(x, freq);
    assert(x * freq < 65536 * freq) by (nonlinear_arith)
        requires
            x < 65536,
            freq > 0,
    ;
    vstd::arithmetic::div_mod::lemma_div_pos_is_pos(x * freq, 65536);
    vstd::arithmetic::div_mod::lemma_multiply_divide_lt(x * freq, 65536, freq);
}

/// Interpolation with a blend parameter in `[0, ONE]` stays between its two
/// endpoints.
pub proof fn lemma_fxlerp_minmax(a: int, b: int, t: int)
    requires
        0 <= t <= ONE,
    ensures
        a <= b ==> a <= fxlerp(a, b, t) <= b,
        b <= a ==> b <= fxlerp(a, b, t) <= a,
{
    let d = b - a;
    if d >= 0 {
        lemma_fxmul_unit(d, t, d);
        assert(d * t >= 0) by (nonlinear_arith)
            requires
                d >= 0,
                t >= 0,
        ;
        vstd::arithmetic::div_mod::lemma_div_pos_is_pos(d * t, 65536);
    } else {
        lemma_fxmul_unit(d, t, -d);
        assert(d * t <= 0) by (nonlinear_arith)
            requires
                d < 0,
                t >= 0,
        ;
        if d * t < 0 {
            vstd::arithmetic::div_mod::lemma_div_pos_is_pos(-(d * t), 65536);
        }
    }
}

} // verus!
