//! Gradient builders: strategies producing one random gradient on demand.
//!
//! Each builder owns its random source exclusively; gradients are sampled at
//! construction time only, and whatever numbers the source produces, every
//! gradient handed out lies in the builder's stated outcome set: one of the
//! listed unit vectors for the cube builders, a direction of near-unit
//! length for the rejection samplers.

use vstd::prelude::*;

verus! {

use crate::fixed::{ONE, FRAC_1_SQRT_2, fxdiv, fx_div};
use crate::gradient::{GradientBuilder, GradientVector};
use crate::point::{Point2, Point3};
use crate::random::rand_below;

/// Integer square root: the largest `r` with `r * r <= s`.
fn isqrt(s: u64) -> (r: u64)
    requires
        s < 0xffff_fffe_0000_0001u64,
    ensures
        (r * r) as int <= s as int,
        (s as int) < ((r + 1) as int) * ((r + 1) as int),
        r <= 0x1_0000_0000u64,
{
    let mut lo: u64 = 0;
    let mut hi: u64 = 0x1_0000_0001;
    proof {
        assert((0x1_0000_0001int) * (0x1_0000_0001int) > s as int);
    }
    while hi - lo > 1
        invariant
            lo < hi <= 0x1_0000_0001u64,
            (lo as int) * (lo as int) <= s as int,
            (s as int) < (hi as int) * (hi as int),
        decreases hi - lo,
    {
        let mid: u64 = lo + (hi - lo) / 2;
        if mid > 0xffff_ffff {
            proof {
                assert((mid as int) * (mid as int) >= 0x1_0000_0000_0000_0000int)
                    by (nonlinear_arith)
                    requires
                        mid as int >= 0x1_0000_0000int,
                ;
            }
            hi = mid;
        } else {
            proof {
                assert((mid as int) * (mid as int) <= 0xffff_fffe_0000_0001int)
                    by (nonlinear_arith)
                    requires
                        0 <= mid as int <= 0xffff_ffffint,
                ;
            }
            if mid * mid <= s {
                lo = mid;
            } else {
                hi = mid;
            }
        }
    }
    lo
}

/// `|x| <= isqrt(s)` whenever `x * x <= s`.
proof fn lemma_component_below_root(x: int, s: int, r: int)
    requires
        x * x <= s,
        s < (r + 1) * (r + 1),
        0 <= r,
    ensures
        -r <= x <= r,
{
    assert(-r <= x <= r) by (nonlinear_arith)
        requires
            x * x <= s,
            s < (r + 1) * (r + 1),
            0 <= r,
    ;
}

/// Normalize a nonzero offset component by the offset's length, giving a
/// fixed-point component within `[-ONE, ONE]`.
fn normalize_component(x: i64, r: u64) -> (g: i64)
    requires
        1 <= r <= 0x1_0000_0000u64,
        -(r as int) <= x <= r as int,
    ensures
        -ONE <= g <= ONE,
        g as int == fxdiv(x as int, r as int),
{
    proof {
        lemma_fxdiv_unit(x as int, r as int);
    }
    fx_div(x, r as i64)
}

/// Dividing a value by a bound at least its magnitude stays within the unit
/// range.
proof fn lemma_fxdiv_unit(x: int, r: int)
    requires
        1 <= r,
        -r <= x <= r,
    ensures
        -ONE <= fxdiv(x, r) <= ONE,
{
    if x >= 0 {
        assert(x * 65536 <= r * 65536) by (nonlinear_arith)
            requires
                x <= r,
        ;
        vstd::arithmetic::mul::lemma_mul_nonnegative(x, 65536);
        vstd::arithmetic::div_mod::lemma_div_is_ordered(x * 65536, r * 65536, r);
        vstd::arithmetic::div_mod::lemma_div_by_multiple(65536, r);
        vstd::arithmetic::mul::lemma_mul_is_commutative(65536, r);
        vstd::arithmetic::div_mod::lemma_div_pos_is_pos(x * 65536, r);
    } else {
        assert((-x) * 65536 <= r * 65536) by (nonlinear_arith)
            requires
                -x <= r,
        ;
        vstd::arithmetic::mul::lemma_mul_nonnegative(-x, 65536);
        vstd::arithmetic::div_mod::lemma_div_is_ordered((-x) * 65536, r * 65536, r);
        vstd::arithmetic::div_mod::lemma_div_by_multiple(65536, r);
        vstd::arithmetic::mul::lemma_mul_is_commutative(65536, r);
        vstd::arithmetic::div_mod::lemma_div_pos_is_pos((-x) * 65536, r);
    }
}

/// The square of a unit-range offset, as an unsigned machine integer.
fn square_offset(x: i64) -> (s: u64)
    requires
        -ONE <= x <= ONE,
    ensures
        s as int == (x as int) * (x as int),
        s <= 0x1_0000_0000u64,
{
    proof {
        assert(0 <= (x as int) * (x as int) <= 65536 * 65536) by (nonlinear_arith)
            requires
                -65536 <= x as int <= 65536,
        ;
    }
    (x * x) as u64
}

/// The magnitude of a value.
spec fn abs_val(x: int) -> int {
    if x >= 0 {
        x
    } else {
        -x
    }
}

/// The squared length of a two-dimensional gradient, unscaled.
pub open spec fn spec_square_norm_2d(g: Point2) -> int {
    g.x * g.x + g.y * g.y
}

/// The squared length of a three-dimensional gradient, unscaled.
pub open spec fn spec_square_norm_3d(g: Point3) -> int {
    g.x * g.x + g.y * g.y + g.z * g.z
}

/// A normalized component is bracketed by the division it came from:
/// `|g| * r <= |x| * ONE < (|g| + 1) * r`.
proof fn lemma_normalized_bracket(x: int, r: int, g: int)
    requires
        1 <= r,
        g == fxdiv(x, r),
    ensures
        0 <= abs_val(g),
        abs_val(g) * r <= abs_val(x) * 65536,
        abs_val(x) * 65536 < (abs_val(g) + 1) * r,
        abs_val(g) * abs_val(g) == g * g,
        abs_val(x) * abs_val(x) == x * x,
{
    assert(abs_val(g) * abs_val(g) == g * g) by (nonlinear_arith);
    assert(abs_val(x) * abs_val(x) == x * x) by (nonlinear_arith);
    if x >= 0 {
        vstd::arithmetic::mul::lemma_mul_nonnegative(x, 65536);
        vstd::arithmetic::div_mod::lemma_fundamental_div_mod(x * 65536, r);
        vstd::arithmetic::div_mod::lemma_mod_bound(x * 65536, r);
        vstd::arithmetic::div_mod::lemma_div_pos_is_pos(x * 65536, r);
        assert(g == x * 65536 / r);
        assert(abs_val(g) * r == r * g) by (nonlinear_arith)
            requires
                g >= 0,
                abs_val(g) == g,
        ;
        assert((abs_val(g) + 1) * r == r * g + r) by (nonlinear_arith)
            requires
                abs_val(g) == g,
        ;
    } else {
        vstd::arithmetic::mul::lemma_mul_nonnegative(-x, 65536);
        vstd::arithmetic::div_mod::lemma_fundamental_div_mod((-x) * 65536, r);
        vstd::arithmetic::div_mod::lemma_mod_bound((-x) * 65536, r);
        vstd::arithmetic::div_mod::lemma_div_pos_is_pos((-x) * 65536, r);
        let q = (-x) * 65536 / r;
        assert(g == -q);
        assert(abs_val(g) == q);
        assert(abs_val(x) == -x);
        assert(abs_val(g) * r == r * q) by (nonlinear_arith)
            requires
                abs_val(g) == q,
        ;
        assert((abs_val(g) + 1) * r == r * q + r) by (nonlinear_arith)
            requires
                abs_val(g) == q,
        ;
    }
}

/// Squaring the bracket of one normalized component:
/// `g^2 r^2 <= x^2 ONE^2 < (|g| + 1)^2 r^2`.
proof fn lemma_component_squares(x: int, r: int, g: int)
    requires
        1 <= r,
        g == fxdiv(x, r),
    ensures
        0 <= abs_val(g),
        abs_val(g) * abs_val(g) == g * g,
        (g * g) * (r * r) <= (x * x) * (65536 * 65536),
        (x * x) * (65536 * 65536) < ((abs_val(g) + 1) * (abs_val(g) + 1)) * (r * r),
{
    lemma_normalized_bracket(x, r, g);
    let ag = abs_val(g);
    let ax = abs_val(x);
    assert((ag * r) * (ag * r) <= (ax * 65536) * (ax * 65536)) by (nonlinear_arith)
        requires
            0 <= ag * r <= ax * 65536,
    ;
    assert((ag * r) * (ag * r) == (ag * ag) * (r * r)) by (nonlinear_arith);
    assert((ax * 65536) * (ax * 65536) == (ax * ax) * (65536 * 65536)) by (nonlinear_arith);
    assert((ax * 65536) * (ax * 65536) < ((ag + 1) * r) * ((ag + 1) * r)) by (nonlinear_arith)
        requires
            0 <= ax * 65536 < (ag + 1) * r,
    ;
    assert(((ag + 1) * r) * ((ag + 1) * r) == ((ag + 1) * (ag + 1)) * (r * r))
        by (nonlinear_arith);
}

/// A normalized offset drawn from the annulus between radius one half and
/// one keeps its squared length within a tight window of `ONE` squared.
proof fn lemma_norm2_window_2d(x: int, y: int, r: int, gx: int, gy: int)
    requires
        32768 <= r <= 65536,
        r * r <= x * x + y * y,
        x * x + y * y < (r + 1) * (r + 1),
        gx == fxdiv(x, r),
        gy == fxdiv(y, r),
        -65536 <= gx <= 65536,
        -65536 <= gy <= 65536,
    ensures
        65533 * 65533 <= gx * gx + gy * gy <= 65538 * 65538,
{
    lemma_component_squares(x, r, gx);
    lemma_component_squares(y, r, gy);
    let agx = abs_val(gx);
    let agy = abs_val(gy);
    let n2 = gx * gx + gy * gy;
    let s = x * x + y * y;
    assert(n2 * (r * r) == (gx * gx) * (r * r) + (gy * gy) * (r * r)) by (nonlinear_arith)
        requires
            n2 == gx * gx + gy * gy,
    ;
    assert(s * (65536 * 65536) == (x * x) * (65536 * 65536) + (y * y) * (65536 * 65536))
        by (nonlinear_arith)
        requires
            s == x * x + y * y,
    ;
    // Upper bound: the squared sum scaled by r^2 is below ((r+1) ONE)^2,
    // and (r+1) ONE is at most r (ONE + 2) once r is at least ONE / 2.
    assert(s * (65536 * 65536) < ((r + 1) * (r + 1)) * (65536 * 65536)) by (nonlinear_arith)
        requires
            s < (r + 1) * (r + 1),
    ;
    assert((r + 1) * 65536 <= r * 65538) by (nonlinear_arith)
        requires
            r >= 32768,
    ;
    assert(((r + 1) * (r + 1)) * (65536 * 65536) == ((r + 1) * 65536) * ((r + 1) * 65536))
        by (nonlinear_arith);
    assert(((r + 1) * 65536) * ((r + 1) * 65536) <= (r * 65538) * (r * 65538))
        by (nonlinear_arith)
        requires
            0 <= (r + 1) * 65536 <= r * 65538,
    ;
    assert((r * 65538) * (r * 65538) == (65538 * 65538) * (r * r)) by (nonlinear_arith);
    assert(n2 * (r * r) < (65538 * 65538) * (r * r));
    assert(n2 <= 65538 * 65538) by (nonlinear_arith)
        requires
            n2 * (r * r) < (65538 * 65538) * (r * r),
            r >= 1,
    ;
    // Lower bound: the reverse brackets, summed, push the squared sum above
    // (ONE - 3)^2 once the unit errors are paid.
    let b2 = (agx + 1) * (agx + 1) + (agy + 1) * (agy + 1);
    assert(b2 * (r * r) == ((agx + 1) * (agx + 1)) * (r * r) + ((agy + 1) * (agy + 1)) * (r * r))
        by (nonlinear_arith)
        requires
            b2 == (agx + 1) * (agx + 1) + (agy + 1) * (agy + 1),
    ;
    assert((r * r) * (65536 * 65536) <= s * (65536 * 65536)) by (nonlinear_arith)
        requires
            r * r <= s,
    ;
    assert((r * r) * (65536 * 65536) < b2 * (r * r));
    assert(65536 * 65536 < b2) by (nonlinear_arith)
        requires
            (r * r) * (65536 * 65536) < b2 * (r * r),
            r >= 1,
    ;
    assert(n2 >= 65533 * 65533) by (nonlinear_arith)
        requires
            65536 * 65536 < (agx + 1) * (agx + 1) + (agy + 1) * (agy + 1),
            agx * agx == gx * gx,
            agy * agy == gy * gy,
            0 <= agx <= 65536,
            0 <= agy <= 65536,
            n2 == gx * gx + gy * gy,
    ;
}

/// The three-dimensional counterpart of the annulus window.
proof fn lemma_norm2_window_3d(x: int, y: int, z: int, r: int, gx: int, gy: int, gz: int)
    requires
        32768 <= r <= 65536,
        r * r <= x * x + y * y + z * z,
        x * x + y * y + z * z < (r + 1) * (r + 1),
        gx == fxdiv(x, r),
        gy == fxdiv(y, r),
        gz == fxdiv(z, r),
        -65536 <= gx <= 65536,
        -65536 <= gy <= 65536,
        -65536 <= gz <= 65536,
    ensures
        65532 * 65532 <= gx * gx + gy * gy + gz * gz <= 65538 * 65538,
{
    lemma_component_squares(x, r, gx);
    lemma_component_squares(y, r, gy);
    lemma_component_squares(z, r, gz);
    let agx = abs_val(gx);
    let agy = abs_val(gy);
    let agz = abs_val(gz);
    let n2 = gx * gx + gy * gy + gz * gz;
    let s = x * x + y * y + z * z;
    assert(n2 * (r * r) == (gx * gx) * (r * r) + (gy * gy) * (r * r) + (gz * gz) * (r * r))
        by (nonlinear_arith)
        requires
            n2 == gx * gx + gy * gy + gz * gz,
    ;
    assert(s * (65536 * 65536) == (x * x) * (65536 * 65536) + (y * y) * (65536 * 65536) + (z * z)
        * (65536 * 65536)) by (nonlinear_arith)
        requires
            s == x * x + y * y + z * z,
    ;
    // Upper bound, as in two dimensions.
    assert(s * (65536 * 65536) < ((r + 1) * (r + 1)) * (65536 * 65536)) by (nonlinear_arith)
        requires
            s < (r + 1) * (r + 1),
    ;
    assert((r + 1) * 65536 <= r * 65538) by (nonlinear_arith)
        requires
            r >= 32768,
    ;
    assert(((r + 1) * (r + 1)) * (65536 * 65536) == ((r + 1) * 65536) * ((r + 1) * 65536))
        by (nonlinear_arith);
    assert(((r + 1) * 65536) * ((r + 1) * 65536) <= (r * 65538) * (r * 65538))
        by (nonlinear_arith)
        requires
            0 <= (r + 1) * 65536 <= r * 65538,
    ;
    assert((r * 65538) * (r * 65538) == (65538 * 65538) * (r * r)) by (nonlinear_arith);
    assert(n2 * (r * r) < (65538 * 65538) * (r * r));
    assert(n2 <= 65538 * 65538) by (nonlinear_arith)
        requires
            n2 * (r * r) < (65538 * 65538) * (r * r),
            r >= 1,
    ;
    // Lower bound, with a third unit error paid.
    let b2 = (agx + 1) * (agx + 1) + (agy + 1) * (agy + 1) + (agz + 1) * (agz + 1);
    assert(b2 * (r * r) == ((agx + 1) * (agx + 1)) * (r * r) + ((agy + 1) * (agy + 1)) * (r * r)
        + ((agz + 1) * (agz + 1)) * (r * r)) by (nonlinear_arith)
        requires
            b2 == (agx + 1) * (agx + 1) + (agy + 1) * (agy + 1) + (agz + 1) * (agz + 1),
    ;
    assert((r * r) * (65536 * 65536) <= s * (65536 * 65536)) by (nonlinear_arith)
        requires
            r * r <= s,
    ;
    assert((r * r) * (65536 * 65536) < b2 * (r * r));
    assert(65536 * 65536 < b2) by (nonlinear_arith)
        requires
            (r * r) * (65536 * 65536) < b2 * (r * r),
            r >= 1,
    ;
    assert(n2 >= 65532 * 65532) by (nonlinear_arith)
        requires
            65536 * 65536 < (agx + 1) * (agx + 1) + (agy + 1) * (agy + 1) + (agz + 1) * (agz
                + 1),
            agx * agx == gx * gx,
            agy * agy == gy * gy,
            agz * agz == gz * gz,
            0 <= agx <= 65536,
            0 <= agy <= 65536,
            0 <= agz <= 65536,
            n2 == gx * gx + gy * gy + gz * gz,
    ;
}

/// A uniformly random fixed-point offset in `[-ONE, ONE]`.
fn random_offset(rng: &mut rand::rngs::StdRng) -> (x: i64)
    ensures
        -ONE <= x <= ONE,
{
    let v: u32 = rand_below(rng, 2 * (ONE as u32) + 1);
    (v as i64) - ONE
}

/// Builds one-dimensional gradients: a uniformly random slope in
/// `[-ONE, ONE]`.
#[derive(Debug)]
pub struct RandomGradientBuilder1d {
    rng: rand::rngs::StdRng,
}

/// Builds one-dimensional gradients: a slope of `-1` or `1`, uniformly.
#[derive(Debug)]
pub struct CubeGradientBuilder1d {
    rng: rand::rngs::StdRng,
}

/// Builds two-dimensional gradients: a uniformly random unit direction,
/// sampled by rejection from the square and normalized by the offset length.
#[derive(Debug)]
pub struct RandomGradientBuilder2d {
    rng: rand::rngs::StdRng,
}

/// Builds two-dimensional gradients: one of the four diagonal unit
/// directions, uniformly.
#[derive(Debug)]
pub struct CubeGradientBuilder2d {
    rng: rand::rngs::StdRng,
}

/// Builds three-dimensional gradients: a random unit direction, sampled by
/// rejection from the cube and normalized by the offset length.
#[derive(Debug)]
pub struct RandomGradientBuilder3d {
    rng: rand::rngs::StdRng,
}

impl RandomGradientBuilder1d {
    /// Take ownership of the random source.
    pub fn new(rng: rand::rngs::StdRng) -> RandomGradientBuilder1d {
        RandomGradientBuilder1d { rng }
    }
}

impl GradientBuilder<i64> for RandomGradientBuilder1d {
    open spec fn spec_outcome(g: i64) -> bool {
        -ONE <= g <= ONE
    }

    fn make_gradient(&mut self) -> (g: i64) {
        random_offset(&mut self.rng)
    }
}

impl CubeGradientBuilder1d {
    /// Take ownership of the random source.
    pub fn new(rng: rand::rngs::StdRng) -> CubeGradientBuilder1d {
        CubeGradientBuilder1d { rng }
    }
}

impl GradientBuilder<i64> for CubeGradientBuilder1d {
    open spec fn spec_outcome(g: i64) -> bool {
        g == ONE || g == -ONE
    }

    fn make_gradient(&mut self) -> (g: i64) {
        let v: u32 = rand_below(&mut self.rng, 2);
        if v == 0 {
            -ONE
        } else {
            ONE
        }
    }
}

impl CubeGradientBuilder2d {
    /// Take ownership of the random source.
    pub fn new(rng: rand::rngs::StdRng) -> CubeGradientBuilder2d {
        CubeGradientBuilder2d { rng }
    }
}

impl GradientBuilder<Point2> for CubeGradientBuilder2d {
    open spec fn spec_outcome(g: Point2) -> bool {
        ||| g == (Point2 { x: -FRAC_1_SQRT_2 as i64, y: -FRAC_1_SQRT_2 as i64 })
        ||| g == (Point2 { x: FRAC_1_SQRT_2, y: -FRAC_1_SQRT_2 as i64 })
        ||| g == (Point2 { x: -FRAC_1_SQRT_2 as i64, y: FRAC_1_SQRT_2 })
        ||| g == (Point2 { x: FRAC_1_SQRT_2, y: FRAC_1_SQRT_2 })
    }

    fn make_gradient(&mut self) -> (g: Point2) {
        let v: u32 = rand_below(&mut self.rng, 4);
        if v == 0 {
            Point2 { x: -FRAC_1_SQRT_2, y: -FRAC_1_SQRT_2 }
        } else if v == 1 {
            Point2 { x: FRAC_1_SQRT_2, y: -FRAC_1_SQRT_2 }
        } else if v == 2 {
            Point2 { x: -FRAC_1_SQRT_2, y: FRAC_1_SQRT_2 }
        } else {
            Point2 { x: FRAC_1_SQRT_2, y: FRAC_1_SQRT_2 }
        }
    }
}

impl RandomGradientBuilder2d {
    /// Take ownership of the random source.
    pub fn new(rng: rand::rngs::StdRng) -> RandomGradientBuilder2d {
        RandomGradientBuilder2d { rng }
    }
}

impl GradientBuilder<Point2> for RandomGradientBuilder2d {
    open spec fn spec_outcome(g: Point2) -> bool {
        &&& g.gv_ok()
        &&& (ONE - 3) * (ONE - 3) <= spec_square_norm_2d(g) <= (ONE + 2) * (ONE + 2)
    }

    fn make_gradient(&mut self) -> (g: Point2) {
        let mut tries: u32 = 0;
        while tries < 64
            invariant
                tries <= 64,
            decreases 64 - tries,
        {
            let x = random_offset(&mut self.rng);
            let y = random_offset(&mut self.rng);
            let s: u64 = square_offset(x) + square_offset(y);
            // Accept offsets from the annulus between radius one half and
            // one: the normalization error then stays within a few units.
            if s >= 0x4000_0000u64 && s <= 0x1_0000_0000u64 {
                let r = isqrt(s);
                proof {
                    lemma_component_below_root(x as int, s as int, r as int);
                    lemma_component_below_root(y as int, s as int, r as int);
                    assert(r >= 32768) by (nonlinear_arith)
                        requires
                            ((r + 1) as int) * ((r + 1) as int) > s as int,
                            s as int >= 32768 * 32768,
                            r >= 0,
                    ;
                    assert(r <= 65536) by (nonlinear_arith)
                        requires
                            (r as int) * (r as int) <= s as int,
                            s as int <= 65536 * 65536,
                            r >= 0,
                    ;
                }
                let gx = normalize_component(x, r);
                let gy = normalize_component(y, r);
                proof {
                    lemma_norm2_window_2d(x as int, y as int, r as int, gx as int, gy as int);
                }
                return Point2 { x: gx, y: gy };
            }
            tries = tries + 1;
        }
        Point2 { x: ONE, y: 0 }
    }
}

impl RandomGradientBuilder3d {
    /// Take ownership of the random source.
    pub fn new(rng: rand::rngs::StdRng) -> RandomGradientBuilder3d {
        RandomGradientBuilder3d { rng }
    }
}

impl GradientBuilder<Point3> for RandomGradientBuilder3d {
    open spec fn spec_outcome(g: Point3) -> bool {
        &&& g.gv_ok()
        &&& (ONE - 4) * (ONE - 4) <= spec_square_norm_3d(g) <= (ONE + 2) * (ONE + 2)
    }

    fn make_gradient(&mut self) -> (g: Point3) {
        let mut tries: u32 = 0;
        while tries < 64
            invariant
                tries <= 64,
            decreases 64 - tries,
        {
            let x = random_offset(&mut self.rng);
            let y = random_offset(&mut self.rng);
            let z = random_offset(&mut self.rng);
            let s: u64 = square_offset(x) + square_offset(y) + square_offset(z);
            // Accept offsets from the shell between radius one half and one:
            // the normalization error then stays within a few units.
            if s >= 0x4000_0000u64 && s <= 0x1_0000_0000u64 {
                let r = isqrt(s);
                proof {
                    lemma_component_below_root(x as int, s as int, r as int);
                    lemma_component_below_root(y as int, s as int, r as int);
                    lemma_component_below_root(z as int, s as int, r as int);
                    assert(r >= 32768) by (nonlinear_arith)
                        requires
                            ((r + 1) as int) * ((r + 1) as int) > s as int,
                            s as int >= 32768 * 32768,
                            r >= 0,
                    ;
                    assert(r <= 65536) by (nonlinear_arith)
                        requires
                            (r as int) * (r as int) <= s as int,
                            s as int <= 65536 * 65536,
                            r >= 0,
                    ;
                }
                let gx = normalize_component(x, r);
                let gy = normalize_component(y, r);
                let gz = normalize_component(z, r);
                proof {
                    lemma_norm2_window_3d(
                        x as int,
                        y as int,
                        z as int,
                        r as int,
                        gx as int,
                        gy as int,
                        gz as int,
                    );
                }
                return Point3 { x: gx, y: gy, z: gz };
            }
            tries = tries + 1;
        }
        Point3 { x: ONE, y: 0, z: 0 }
    }
}

} // verus!
