//! Output filters: clamping and smooth low/high-pass thresholds.

use vstd::prelude::*;

verus! {

use crate::error::NoiseError;
use crate::fixed::{fxdiv, spec_clamp, fits_i64, fx_div, clamp_value};
use crate::noise::Noise;
use crate::adapter::blend::BlendFn;

/// Which baseline a filter passes through and which it clamps to.
#[derive(Clone, Copy, Debug, PartialEq, Eq, Structural)]
pub enum FilterKind {
    /// Values below the window pass; values above flatten to zero.
    LowPass,
    /// Values below the window flatten to zero; values above pass.
    HighPass,
}

/// Clamps the inner source's output into `[low, high]`.
#[derive(Clone, Debug)]
pub struct Clamp<N> {
    noise: N,
    low: i64,
    high: i64,
}

/// A smooth low-pass or high-pass threshold: below `start` the kind's
/// baseline passes through, above `end` the value flattens to the other
/// baseline, and between the two the baselines are blended by the blend
/// function under the parameter `(value - start) / (end - start)`.
#[derive(Clone, Debug)]
pub struct Filter<N, F> {
    noise: N,
    start: i64,
    end: i64,
    kind: FilterKind,
    blend_fn: F,
}

impl<N> Clamp<N> {
    /// The inner source.
    pub closed spec fn spec_noise(&self) -> N {
        self.noise
    }

    /// The lower clamp bound.
    pub closed spec fn spec_low(&self) -> i64 {
        self.low
    }

    /// The upper clamp bound.
    pub closed spec fn spec_high(&self) -> i64 {
        self.high
    }

    /// Clamp the output of `noise` into `[low, high]`; the lower bound must
    /// lie strictly below the upper.
    pub fn new(noise: N, low: i64, high: i64) -> (result: Result<Clamp<N>, NoiseError>)
        ensures
            match result {
                Ok(r) => {
                    &&& low < high
                    &&& r.spec_noise() == noise
                    &&& r.spec_low() == low
                    &&& r.spec_high() == high
                },
                Err(e) => {
                    &&& e == NoiseError::InvalidRange
                    &&& low >= high
                },
            },
    {
        if low >= high {
            return Err(NoiseError::InvalidRange);
        }
        Ok(Clamp { noise, low, high })
    }

    /// The inner source.
    pub fn inner_noise(&self) -> (r: &N)
        ensures
            r == self.spec_noise(),
    {
        &self.noise
    }
}

impl<P: Copy, N: Noise<P>> Noise<P> for Clamp<N> {
    open spec fn wf(&self) -> bool {
        &&& self.spec_noise().wf()
        &&& self.spec_low() < self.spec_high()
    }

    open spec fn valid_at(&self, p: P) -> bool {
        self.spec_noise().valid_at(p)
    }

    open spec fn spec_value(&self, p: P) -> int {
        spec_clamp(
            self.spec_noise().spec_value(p),
            self.spec_low() as int,
            self.spec_high() as int,
        )
    }

    open spec fn frequency_defined(&self) -> bool {
        self.spec_noise().frequency_defined()
    }

    open spec fn spec_frequency(&self) -> P {
        self.spec_noise().spec_frequency()
    }

    fn value_at(&self, p: P) -> (v: i64) {
        let inner = self.noise.value_at(p);
        clamp_value(inner, self.low, self.high)
    }

    fn frequency(&self) -> (f: P) {
        self.noise.frequency()
    }
}

/// Law: the clamp adapter evaluates to the clamped inner value, and its
/// output always lies within the configured range.
pub proof fn lemma_clamp_law<P: Copy, N: Noise<P>>(n: &Clamp<N>, p: P)
    requires
        n.spec_low() < n.spec_high(),
    ensures
        n.spec_value(p) == spec_clamp(
            n.spec_noise().spec_value(p),
            n.spec_low() as int,
            n.spec_high() as int,
        ),
        n.spec_low() as int <= n.spec_value(p) <= n.spec_high() as int,
{
}

impl<N, F> Filter<N, F> {
    /// The inner source.
    pub closed spec fn spec_noise(&self) -> N {
        self.noise
    }

    /// The start of the transition window.
    pub closed spec fn spec_start(&self) -> i64 {
        self.start
    }

    /// The end of the transition window.
    pub closed spec fn spec_end(&self) -> i64 {
        self.end
    }

    /// Low-pass or high-pass.
    pub closed spec fn spec_kind(&self) -> FilterKind {
        self.kind
    }

    /// The blend function used inside the transition window.
    pub closed spec fn spec_blend_fn(&self) -> F {
        self.blend_fn
    }

    /// Filter the output of `noise` through a smooth threshold between
    /// `start` and `end`; the window must be non-empty and of representable
    /// width.
    pub fn new(noise: N, start: i64, end: i64, kind: FilterKind, blend_fn: F) -> (result: Result<
        Filter<N, F>,
        NoiseError,
    >)
        ensures
            match result {
                Ok(r) => {
                    &&& start < end
                    &&& fits_i64(end as int - start as int)
                    &&& r.spec_noise() == noise
                    &&& r.spec_start() == start
                    &&& r.spec_end() == end
                    &&& r.spec_kind() == kind
                    &&& r.spec_blend_fn() == blend_fn
                },
                Err(e) => {
                    &&& e == NoiseError::InvalidRange
                    &&& (start >= end || !fits_i64(end as int - start as int))
                },
            },
    {
        if start >= end {
            return Err(NoiseError::InvalidRange);
        }
        let width: i128 = (end as i128) - (start as i128);
        if width > (i64::MAX as i128) {
            return Err(NoiseError::InvalidRange);
        }
        Ok(Filter { noise, start, end, kind, blend_fn })
    }

    /// The inner source.
    pub fn inner_noise(&self) -> (r: &N)
        ensures
            r == self.spec_noise(),
    {
        &self.noise
    }

    /// Low-pass or high-pass.
    pub fn kind(&self) -> (r: FilterKind)
        ensures
            r == self.spec_kind(),
    {
        self.kind
    }

    /// The start of the transition window.
    pub fn start(&self) -> (r: i64)
        ensures
            r == self.spec_start(),
    {
        self.start
    }

    /// The end of the transition window.
    pub fn end(&self) -> (r: i64)
        ensures
            r == self.spec_end(),
    {
        self.end
    }

    /// The blend function used inside the transition window.
    pub fn blend_fn(&self) -> (r: &F)
        ensures
            r == self.spec_blend_fn(),
    {
        &self.blend_fn
    }
}

/// The filter as a mathematical function of the inner value.
pub open spec fn spec_filter_value<F: BlendFn>(
    v: int,
    start: int,
    end: int,
    kind: FilterKind,
    blend_fn: F,
) -> int {
    let x1 = match kind {
        FilterKind::LowPass => v,
        FilterKind::HighPass => 0,
    };
    let x2 = match kind {
        FilterKind::LowPass => 0,
        FilterKind::HighPass => v,
    };
    if v > start {
        if v < end {
            blend_fn.spec_blend(x1, x2, fxdiv(v - start, end - start))
        } else {
            x2
        }
    } else {
        x1
    }
}

impl<P: Copy, N: Noise<P>, F: BlendFn> Noise<P> for Filter<N, F> {
    open spec fn wf(&self) -> bool {
        &&& self.spec_noise().wf()
        &&& self.spec_start() < self.spec_end()
        &&& fits_i64(self.spec_end() as int - self.spec_start() as int)
    }

    open spec fn valid_at(&self, p: P) -> bool {
        &&& self.spec_noise().valid_at(p)
        &&& fits_i64(self.spec_noise().spec_value(p) - self.spec_start() as int)
    }

    open spec fn spec_value(&self, p: P) -> int {
        spec_filter_value(
            self.spec_noise().spec_value(p),
            self.spec_start() as int,
            self.spec_end() as int,
            self.spec_kind(),
            self.spec_blend_fn(),
        )
    }

    open spec fn frequency_defined(&self) -> bool {
        self.spec_noise().frequency_defined()
    }

    open spec fn spec_frequency(&self) -> P {
        self.spec_noise().spec_frequency()
    }

    fn value_at(&self, p: P) -> (v: i64) {
        let val = self.noise.value_at(p);
        let x1: i64 = match self.kind {
            FilterKind::LowPass => val,
            FilterKind::HighPass => 0,
        };
        let x2: i64 = match self.kind {
            FilterKind::LowPass => 0,
            FilterKind::HighPass => val,
        };
        if val > self.start {
            if val < self.end {
                proof {
                    lemma_filter_parameter(
                        val as int,
                        self.spec_start() as int,
                        self.spec_end() as int,
                    );
                }
                let t: i64 = fx_div(val - self.start, self.end - self.start);
                self.blend_fn.blend(x1, x2, t)
            } else {
                x2
            }
        } else {
            x1
        }
    }

    fn frequency(&self) -> (f: P) {
        self.noise.frequency()
    }
}

/// Inside the transition window, the blend parameter
/// `(value - start) / (end - start)` is a representable fraction below one.
proof fn lemma_filter_parameter(v: int, start: int, end: int)
    requires
        start < v < end,
        fits_i64(end - start),
        fits_i64(v - start),
    ensures
        0 <= fxdiv(v - start, end - start) < 65536,
{
    vstd::arithmetic::mul::lemma_mul_nonnegative(v - start, 65536);
    vstd::arithmetic::div_mod::lemma_div_pos_is_pos((v - start) * 65536, end - start);
    assert((v - start) * 65536 < (end - start) * 65536) by (nonlinear_arith)
        requires
            v - start < end - start,
    ;
    vstd::arithmetic::div_mod::lemma_multiply_divide_lt(
        (v - start) * 65536,
        end - start,
        65536,
    );
}

} // verus!
