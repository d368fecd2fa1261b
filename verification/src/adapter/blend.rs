//! Generic blend helpers and blend-function capabilities.
//!
//! A blend function combines two samples under a blend parameter. The
//! parameter is clamped to `[0, ONE]` before blending, so every helper here
//! is total: the result always lies between the two samples.

use vstd::prelude::*;

verus! {

use crate::fixed::{ONE, fxlerp, spec_clamp, fx_lerp, clamp_value, lemma_fxlerp_minmax};
use crate::interpolate::{
    spec_smoothstep, spec_smootherstep, lemma_smoothstep_range, lemma_smootherstep_range,
    Hermite3rdOrderInterpolator, Hermite5thOrderInterpolator, InterpolationFunction,
};

/// The linear blend as a mathematical function: interpolate from `x1` to
/// `x2` under the parameter clamped into `[0, ONE]`.
pub open spec fn spec_linear_blend(x1: int, x2: int, t: int) -> int {
    fxlerp(x1, x2, spec_clamp(t, 0, ONE as int))
}

/// The 3rd-order Hermite blend: the parameter is clamped, smoothed by
/// `smoothstep`, then linearly blended.
pub open spec fn spec_hermite_3rd_order_blend(x1: int, x2: int, t: int) -> int {
    fxlerp(x1, x2, spec_smoothstep(spec_clamp(t, 0, ONE as int)))
}

/// The 5th-order Hermite blend: the parameter is clamped, smoothed by
/// `smootherstep`, then linearly blended.
pub open spec fn spec_hermite_5th_order_blend(x1: int, x2: int, t: int) -> int {
    fxlerp(x1, x2, spec_smootherstep(spec_clamp(t, 0, ONE as int)))
}

/// Linearly blend from `x1` to `x2`; the parameter is clamped to `[0, ONE]`
/// first, and the result lies between the two samples.
pub fn linear_blend(x1: i64, x2: i64, t: i64) -> (r: i64)
    ensures
        r as int == spec_linear_blend(x1 as int, x2 as int, t as int),
        x1 <= x2 ==> x1 <= r <= x2,
        x2 <= x1 ==> x2 <= r <= x1,
{
    let tc = clamp_value(t, 0, ONE);
    proof {
        lemma_fxlerp_minmax(x1 as int, x2 as int, tc as int);
    }
    fx_lerp(x1, x2, tc)
}

/// Blend with a 3rd-order Hermite smoothing of the parameter.
pub fn hermite_3rd_order_blend(x1: i64, x2: i64, t: i64) -> (r: i64)
    ensures
        r as int == spec_hermite_3rd_order_blend(x1 as int, x2 as int, t as int),
        x1 <= x2 ==> x1 <= r <= x2,
        x2 <= x1 ==> x2 <= r <= x1,
{
    let tc = clamp_value(t, 0, ONE);
    let interp = Hermite3rdOrderInterpolator::new();
    let factor = interp.interpolation_value(tc);
    proof {
        lemma_smoothstep_range(tc as int);
        lemma_fxlerp_minmax(x1 as int, x2 as int, factor as int);
    }
    fx_lerp(x1, x2, factor)
}

/// Blend with a 5th-order Hermite smoothing of the parameter.
pub fn hermite_5th_order_blend(x1: i64, x2: i64, t: i64) -> (r: i64)
    ensures
        r as int == spec_hermite_5th_order_blend(x1 as int, x2 as int, t as int),
        x1 <= x2 ==> x1 <= r <= x2,
        x2 <= x1 ==> x2 <= r <= x1,
{
    let tc = clamp_value(t, 0, ONE);
    let interp = Hermite5thOrderInterpolator::new();
    let factor = interp.interpolation_value(tc);
    proof {
        lemma_smootherstep_range(tc as int);
        lemma_fxlerp_minmax(x1 as int, x2 as int, factor as int);
    }
    fx_lerp(x1, x2, factor)
}

/// A ternary blend capability: combine two samples under a criteria value.
pub trait BlendFn: Sized {
    /// The blend as a mathematical function.
    spec fn spec_blend(&self, x1: int, x2: int, t: int) -> int;

    /// The blend stays between its two samples.
    proof fn lemma_blend_range(&self, x1: int, x2: int, t: int)
        ensures
            x1 <= x2 ==> x1 <= self.spec_blend(x1, x2, t) <= x2,
            x2 <= x1 ==> x2 <= self.spec_blend(x1, x2, t) <= x1,
    ;

    /// Compute the blend.
    fn blend(&self, x1: i64, x2: i64, t: i64) -> (r: i64)
        ensures
            r as int == self.spec_blend(x1 as int, x2 as int, t as int),
    ;
}

/// The linear blend as a capability.
#[derive(Clone, Copy, Debug, Default)]
pub struct LinearBlend;

/// The 3rd-order Hermite blend as a capability.
#[derive(Clone, Copy, Debug, Default)]
pub struct Hermite3rdOrderBlend;

/// The 5th-order Hermite blend as a capability.
#[derive(Clone, Copy, Debug, Default)]
pub struct Hermite5thOrderBlend;

impl BlendFn for LinearBlend {
    open spec fn spec_blend(&self, x1: int, x2: int, t: int) -> int {
        spec_linear_blend(x1, x2, t)
    }

    proof fn lemma_blend_range(&self, x1: int, x2: int, t: int) {
        lemma_fxlerp_minmax(x1, x2, spec_clamp(t, 0, ONE as int));
    }

    fn blend(&self, x1: i64, x2: i64, t: i64) -> (r: i64) {
        linear_blend(x1, x2, t)
    }
}

impl BlendFn for Hermite3rdOrderBlend {
    open spec fn spec_blend(&self, x1: int, x2: int, t: int) -> int {
        spec_hermite_3rd_order_blend(x1, x2, t)
    }

    proof fn lemma_blend_range(&self, x1: int, x2: int, t: int) {
        lemma_smoothstep_range(spec_clamp(t, 0, ONE as int));
        lemma_fxlerp_minmax(x1, x2, spec_smoothstep(spec_clamp(t, 0, ONE as int)));
    }

    fn blend(&self, x1: i64, x2: i64, t: i64) -> (r: i64) {
        hermite_3rd_order_blend(x1, x2, t)
    }
}

impl BlendFn for Hermite5thOrderBlend {
    open spec fn spec_blend(&self, x1: int, x2: int, t: int) -> int {
        spec_hermite_5th_order_blend(x1, x2, t)
    }

    proof fn lemma_blend_range(&self, x1: int, x2: int, t: int) {
        lemma_smootherstep_range(spec_clamp(t, 0, ONE as int));
        lemma_fxlerp_minmax(x1, x2, spec_smootherstep(spec_clamp(t, 0, ONE as int)));
    }

    fn blend(&self, x1: i64, x2: i64, t: i64) -> (r: i64) {
        hermite_5th_order_blend(x1, x2, t)
    }
}

} // verus!
