//! Interpolation kernels.
//!
//! A kernel maps a blend parameter `t` in `[0, ONE]` to a smoothed parameter
//! in the same interval; the gradient-noise evaluators feed the fractional
//! cell offset through a kernel before interpolating corner values. The two
//! Hermite kernels are computed as nested linear interpolations of unit-range
//! quantities, which realizes the classic polynomials
//! `t^2 (3 - 2 t)` and `t^3 (10 + t (-15 + 6 t))` in fixed point while
//! keeping every intermediate value inside `[0, ONE]`.

use vstd::prelude::*;

verus! {

use crate::fixed::{ONE, fxmul, fxlerp, fx_mul, fx_lerp, lemma_fxmul_unit, lemma_fxlerp_minmax};
use vstd::arithmetic::div_mod::lemma_div_by_multiple;

/// A smoothing kernel for blend parameters.
///
/// `spec_interp` is the kernel as a mathematical function of the fixed-point
/// parameter; `interpolation_value` computes exactly that function. Every
/// kernel fixes `0` and maps `[0, ONE]` into `[0, ONE]`
/// (`lemma_interp_range`).
pub trait InterpolationFunction: Sized {
    /// The kernel as a function of the fixed-point blend parameter.
    spec fn spec_interp(&self, t: int) -> int;

    /// The kernel maps `[0, ONE]` into `[0, ONE]` and fixes the endpoints.
    proof fn lemma_interp_range(&self, t: int)
        requires
            0 <= t <= ONE,
        ensures
            0 <= self.spec_interp(t) <= ONE,
            t == 0 ==> self.spec_interp(t) == 0,
            t == ONE ==> self.spec_interp(t) == ONE,
    ;

    /// Evaluate the kernel.
    fn interpolation_value(&self, t: i64) -> (r: i64)
        requires
            0 <= t <= ONE,
        ensures
            r as int == self.spec_interp(t as int),
    ;
}

/// The identity kernel: `f(t) = t`.
#[derive(Default, Clone, Copy, Debug)]
pub struct LinearInterpolator;

/// The 3rd-order Hermite kernel (smoothstep): `f(t) = t^2 (3 - 2 t)`.
#[derive(Default, Clone, Copy, Debug)]
pub struct Hermite3rdOrderInterpolator;

/// The 5th-order Hermite kernel (smootherstep):
/// `f(t) = t^3 (10 + t (-15 + 6 t))`.
#[derive(Default, Clone, Copy, Debug)]
pub struct Hermite5thOrderInterpolator;

impl LinearInterpolator {
    pub fn new() -> (r: LinearInterpolator)
        ensures
            r == (LinearInterpolator {}),
    {
        LinearInterpolator {}
    }
}

impl Hermite3rdOrderInterpolator {
    pub fn new() -> (r: Hermite3rdOrderInterpolator)
        ensures
            r == (Hermite3rdOrderInterpolator {}),
    {
        Hermite3rdOrderInterpolator {}
    }
}

impl Hermite5thOrderInterpolator {
    pub fn new() -> (r: Hermite5thOrderInterpolator)
        ensures
            r == (Hermite5thOrderInterpolator {}),
    {
        Hermite5thOrderInterpolator {}
    }
}

/// `t^2 (3 - 2 t)` in fixed point, written as the interpolation
/// `lerp(t^2, 1 - (1-t)^2, t)`; the two forms agree as real polynomials.
pub open spec fn spec_smoothstep(t: int) -> int {
    fxlerp(fxmul(t, t), (ONE as int) - fxmul((ONE as int) - t, (ONE as int) - t), t)
}

/// One half of the smootherstep decomposition: `lerp(t^3, smoothstep(t), t)`,
/// which equals `t^3 (4 - 3 t)` as a real polynomial.
pub open spec fn spec_smoother_half(t: int) -> int {
    fxlerp(fxmul(fxmul(t, t), t), spec_smoothstep(t), t)
}

/// `t^3 (10 + t (-15 + 6 t))` in fixed point, written as
/// `lerp(half(t), 1 - half(1-t), t)`; the forms agree as real polynomials.
pub open spec fn spec_smootherstep(t: int) -> int {
    fxlerp(spec_smoother_half(t), (ONE as int) - spec_smoother_half((ONE as int) - t), t)
}

/// `smoothstep` maps `[0, ONE]` into `[0, ONE]` and fixes the endpoints.
pub proof fn lemma_smoothstep_range(t: int)
    requires
        0 <= t <= ONE,
    ensures
        0 <= spec_smoothstep(t) <= ONE,
        t == 0 ==> spec_smoothstep(t) == 0,
        t == ONE ==> spec_smoothstep(t) == ONE,
{
    let u = (ONE as int) - t;
    assert(ONE == 65536);
    lemma_fxmul_unit(t, t, ONE as int);
    lemma_fxmul_unit(u, u, ONE as int);
    assert(0 <= fxmul(t, t) <= t) by {
        lemma_fxmul_unit(t, t, t);
    }
    assert(0 <= fxmul(u, u)) by {
        lemma_fxmul_unit(u, u, u);
    }
    lemma_fxlerp_minmax(fxmul(t, t), (ONE as int) - fxmul(u, u), t);
    if t == 0 {
        assert(fxmul(0, 0) == 0);
    }
    if t == ONE {
        assert(fxmul(ONE as int, ONE as int) == ONE) by {
            lemma_div_by_multiple(65536, 65536);
        }
        assert(fxmul(0, 0) == 0);
    }
}

/// The smootherstep half term maps `[0, ONE]` into `[0, ONE]` and fixes the
/// endpoints.
pub proof fn lemma_smoother_half_range(t: int)
    requires
        0 <= t <= ONE,
    ensures
        0 <= spec_smoother_half(t) <= ONE,
        t == 0 ==> spec_smoother_half(t) == 0,
        t == ONE ==> spec_smoother_half(t) == ONE,
{
    assert(ONE == 65536);
    lemma_fxmul_unit(t, t, ONE as int);
    lemma_fxmul_unit(fxmul(t, t), t, ONE as int);
    lemma_smoothstep_range(t);
    lemma_fxlerp_minmax(fxmul(fxmul(t, t), t), spec_smoothstep(t), t);
    if t == 0 {
        assert(fxmul(0, 0) == 0);
    }
    if t == ONE {
        assert(fxmul(ONE as int, ONE as int) == ONE) by {
            lemma_div_by_multiple(65536, 65536);
        }
    }
}

/// `smootherstep` maps `[0, ONE]` into `[0, ONE]` and fixes the endpoints.
pub proof fn lemma_smootherstep_range(t: int)
    requires
        0 <= t <= ONE,
    ensures
        0 <= spec_smootherstep(t) <= ONE,
        t == 0 ==> spec_smootherstep(t) == 0,
        t == ONE ==> spec_smootherstep(t) == ONE,
{
    let u = (ONE as int) - t;
    lemma_smoother_half_range(t);
    lemma_smoother_half_range(u);
    lemma_fxlerp_minmax(spec_smoother_half(t), (ONE as int) - spec_smoother_half(u), t);
}

impl InterpolationFunction for LinearInterpolator {
    open spec fn spec_interp(&self, t: int) -> int {
        t
    }

    proof fn lemma_interp_range(&self, t: int) {
    }

    fn interpolation_value(&self, t: i64) -> (r: i64) {
        t
    }
}

impl InterpolationFunction for Hermite3rdOrderInterpolator {
    open spec fn spec_interp(&self, t: int) -> int {
        spec_smoothstep(t)
    }

    proof fn lemma_interp_range(&self, t: int) {
        lemma_smoothstep_range(t);
    }

    fn interpolation_value(&self, t: i64) -> (r: i64) {
        let u = ONE - t;
        proof {
            lemma_fxmul_unit(t as int, t as int, ONE as int);
            lemma_fxmul_unit(u as int, u as int, ONE as int);
        }
        let tt = fx_mul(t, t);
        let uu = fx_mul(u, u);
        fx_lerp(tt, ONE - uu, t)
    }
}

impl InterpolationFunction for Hermite5thOrderInterpolator {
    open spec fn spec_interp(&self, t: int) -> int {
        spec_smootherstep(t)
    }

    proof fn lemma_interp_range(&self, t: int) {
        lemma_smootherstep_range(t);
    }

    fn interpolation_value(&self, t: i64) -> (r: i64) {
        let half_t = smoother_half(t);
        let u = ONE - t;
        let half_u = smoother_half(u);
        proof {
            lemma_smoother_half_range(t as int);
            lemma_smoother_half_range(u as int);
        }
        fx_lerp(half_t, ONE - half_u, t)
    }
}

/// The half term of the smootherstep decomposition, `lerp(t^3, smoothstep(t), t)`.
fn smoother_half(t: i64) -> (r: i64)
    requires
        0 <= t <= ONE,
    ensures
        r as int == spec_smoother_half(t as int),
{
    proof {
        lemma_fxmul_unit(t as int, t as int, ONE as int);
    }
    let tt = fx_mul(t, t);
    proof {
        lemma_fxmul_unit(tt as int, t as int, ONE as int);
    }
    let ttt = fx_mul(tt, t);
    let u = ONE - t;
    proof {
        lemma_fxmul_unit(u as int, u as int, ONE as int);
    }
    let uu = fx_mul(u, u);
    let ss = fx_lerp(tt, ONE - uu, t);
    fx_lerp(ttt, ss, t)
}

} // verus!
