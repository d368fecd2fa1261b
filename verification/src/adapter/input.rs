//! Input-space transforms: the coordinate is adjusted per axis before the
//! inner source is evaluated.

use vstd::prelude::*;

verus! {

use crate::error::NoiseError;
use crate::noise::Noise;
use crate::point::PointUtil;

/// Scales each input axis by a fixed factor before delegating.
#[derive(Clone, Debug)]
pub struct ScaleInput<N, P> {
    noise: N,
    scale: P,
}

/// Shifts each input axis by a fixed offset before delegating.
#[derive(Clone, Debug)]
pub struct ShiftInput<N, P> {
    noise: N,
    shift: P,
}

/// Clamps each input axis into `[low, high]` before delegating.
#[derive(Clone, Debug)]
pub struct ClampInput<N, P> {
    noise: N,
    low: P,
    high: P,
}

/// Wraps each input axis into `[low, high)` by modular arithmetic before
/// delegating.
#[derive(Clone, Debug)]
pub struct WrapInput<N, P> {
    noise: N,
    low: P,
    high: P,
}

impl<N, P: Copy> ScaleInput<N, P> {
    /// The inner source.
    pub closed spec fn spec_noise(&self) -> N {
        self.noise
    }

    /// The per-axis scale.
    pub closed spec fn spec_scale(&self) -> P {
        self.scale
    }

    /// Scale the input of `noise` per axis.
    pub fn new(noise: N, scale: P) -> (r: ScaleInput<N, P>)
        ensures
            r.spec_noise() == noise,
            r.spec_scale() == scale,
    {
        ScaleInput { noise, scale }
    }

    /// The inner source.
    pub fn inner_noise(&self) -> (r: &N)
        ensures
            r == self.spec_noise(),
    {
        &self.noise
    }
}

impl<P: Copy + PointUtil, N: Noise<P>> Noise<P> for ScaleInput<N, P> {
    open spec fn wf(&self) -> bool {
        self.spec_noise().wf()
    }

    open spec fn valid_at(&self, p: P) -> bool {
        &&& p.mul_ok(self.spec_scale())
        &&& self.spec_noise().valid_at(p.spec_axis_mul(self.spec_scale()))
    }

    open spec fn spec_value(&self, p: P) -> int {
        self.spec_noise().spec_value(p.spec_axis_mul(self.spec_scale()))
    }

    open spec fn frequency_defined(&self) -> bool {
        self.spec_noise().frequency_defined()
    }

    open spec fn spec_frequency(&self) -> P {
        self.spec_noise().spec_frequency()
    }

    fn value_at(&self, p: P) -> (v: i64) {
        let scaled = p.axis_mul(self.scale);
        self.noise.value_at(scaled)
    }

    fn frequency(&self) -> (f: P) {
        self.noise.frequency()
    }
}

impl<N, P: Copy> ShiftInput<N, P> {
    /// The inner source.
    pub closed spec fn spec_noise(&self) -> N {
        self.noise
    }

    /// The per-axis shift.
    pub closed spec fn spec_shift(&self) -> P {
        self.shift
    }

    /// Shift the input of `noise` per axis.
    pub fn new(noise: N, shift: P) -> (r: ShiftInput<N, P>)
        ensures
            r.spec_noise() == noise,
            r.spec_shift() == shift,
    {
        ShiftInput { noise, shift }
    }

    /// The inner source.
    pub fn inner_noise(&self) -> (r: &N)
        ensures
            r == self.spec_noise(),
    {
        &self.noise
    }
}

impl<P: Copy + PointUtil, N: Noise<P>> Noise<P> for ShiftInput<N, P> {
    open spec fn wf(&self) -> bool {
        self.spec_noise().wf()
    }

    open spec fn valid_at(&self, p: P) -> bool {
        &&& p.add_ok(self.spec_shift())
        &&& self.spec_noise().valid_at(p.spec_axis_add(self.spec_shift()))
    }

    open spec fn spec_value(&self, p: P) -> int {
        self.spec_noise().spec_value(p.spec_axis_add(self.spec_shift()))
    }

    open spec fn frequency_defined(&self) -> bool {
        self.spec_noise().frequency_defined()
    }

    open spec fn spec_frequency(&self) -> P {
        self.spec_noise().spec_frequency()
    }

    fn value_at(&self, p: P) -> (v: i64) {
        let shifted = p.axis_add(self.shift);
        self.noise.value_at(shifted)
    }

    fn frequency(&self) -> (f: P) {
        self.noise.frequency()
    }
}

impl<N, P: Copy + PointUtil> ClampInput<N, P> {
    /// The inner source.
    pub closed spec fn spec_noise(&self) -> N {
        self.noise
    }

    /// The per-axis lower bound.
    pub closed spec fn spec_low(&self) -> P {
        self.low
    }

    /// The per-axis upper bound.
    pub closed spec fn spec_high(&self) -> P {
        self.high
    }

    /// Clamp the input of `noise` into `[low, high]` per axis. The lower
    /// bound must lie strictly below the upper on every axis.
    pub fn new(noise: N, low: P, high: P) -> (result: Result<ClampInput<N, P>, NoiseError>)
        ensures
            match result {
                Ok(r) => {
                    &&& low.all_lt(high)
                    &&& r.spec_noise() == noise
                    &&& r.spec_low() == low
                    &&& r.spec_high() == high
                },
                Err(e) => {
                    &&& e == NoiseError::InvalidRange
                    &&& !low.all_lt(high)
                },
            },
    {
        if !low.check_lt(high) {
            return Err(NoiseError::InvalidRange);
        }
        Ok(ClampInput { noise, low, high })
    }

    /// The inner source.
    pub fn inner_noise(&self) -> (r: &N)
        ensures
            r == self.spec_noise(),
    {
        &self.noise
    }
}

impl<P: Copy + PointUtil, N: Noise<P>> Noise<P> for ClampInput<N, P> {
    open spec fn wf(&self) -> bool {
        &&& self.spec_noise().wf()
        &&& self.spec_low().all_lt(self.spec_high())
    }

    open spec fn valid_at(&self, p: P) -> bool {
        self.spec_noise().valid_at(p.spec_axis_clamp(self.spec_low(), self.spec_high()))
    }

    open spec fn spec_value(&self, p: P) -> int {
        self.spec_noise().spec_value(p.spec_axis_clamp(self.spec_low(), self.spec_high()))
    }

    open spec fn frequency_defined(&self) -> bool {
        self.spec_noise().frequency_defined()
    }

    open spec fn spec_frequency(&self) -> P {
        self.spec_noise().spec_frequency()
    }

    fn value_at(&self, p: P) -> (v: i64) {
        let clamped = p.axis_clamp(self.low, self.high);
        self.noise.value_at(clamped)
    }

    fn frequency(&self) -> (f: P) {
        self.noise.frequency()
    }
}

impl<N, P: Copy + PointUtil> WrapInput<N, P> {
    /// The inner source.
    pub closed spec fn spec_noise(&self) -> N {
        self.noise
    }

    /// The per-axis lower bound.
    pub closed spec fn spec_low(&self) -> P {
        self.low
    }

    /// The per-axis upper bound.
    pub closed spec fn spec_high(&self) -> P {
        self.high
    }

    /// Wrap the input of `noise` into `[low, high)` per axis. The lower
    /// bound must lie strictly below the upper on every axis.
    pub fn new(noise: N, low: P, high: P) -> (result: Result<WrapInput<N, P>, NoiseError>)
        ensures
            match result {
                Ok(r) => {
                    &&& low.all_lt(high)
                    &&& r.spec_noise() == noise
                    &&& r.spec_low() == low
                    &&& r.spec_high() == high
                },
                Err(e) => {
                    &&& e == NoiseError::InvalidRange
                    &&& !low.all_lt(high)
                },
            },
    {
        if !low.check_lt(high) {
            return Err(NoiseError::InvalidRange);
        }
        Ok(WrapInput { noise, low, high })
    }

    /// The inner source.
    pub fn inner_noise(&self) -> (r: &N)
        ensures
            r == self.spec_noise(),
    {
        &self.noise
    }
}

impl<P: Copy + PointUtil, N: Noise<P>> Noise<P> for WrapInput<N, P> {
    open spec fn wf(&self) -> bool {
        &&& self.spec_noise().wf()
        &&& self.spec_low().all_lt(self.spec_high())
    }

    open spec fn valid_at(&self, p: P) -> bool {
        &&& p.wrap_ok(self.spec_low(), self.spec_high())
        &&& self.spec_noise().valid_at(p.spec_axis_wrap(self.spec_low(), self.spec_high()))
    }

    open spec fn spec_value(&self, p: P) -> int {
        self.spec_noise().spec_value(p.spec_axis_wrap(self.spec_low(), self.spec_high()))
    }

    open spec fn frequency_defined(&self) -> bool {
        self.spec_noise().frequency_defined()
    }

    open spec fn spec_frequency(&self) -> P {
        self.spec_noise().spec_frequency()
    }

    fn value_at(&self, p: P) -> (v: i64) {
        let wrapped = p.axis_wrap(self.low, self.high);
        self.noise.value_at(wrapped)
    }

    fn frequency(&self) -> (f: P) {
        self.noise.frequency()
    }
}

} // verus!
