//! Output transforms that rescale the inner source's value.

use vstd::prelude::*;

verus! {

use crate::error::NoiseError;
use crate::fixed::{fxmul, fits_i64, fx_mul};
use crate::noise::Noise;

/// Scales the inner source's output by a fixed amplitude.
#[derive(Clone, Debug)]
pub struct Scale<N> {
    noise: N,
    amplitude: i64,
}

/// Remaps the inner source's assumed `[-ONE, ONE]` output into `[min, max]`:
/// `value = min + (1/2 + value/2) * (max - min)` in fixed point.
#[derive(Clone, Debug)]
pub struct WithRange<N> {
    noise: N,
    min: i64,
    max: i64,
}

impl<N> Scale<N> {
    /// The inner source.
    pub closed spec fn spec_noise(&self) -> N {
        self.noise
    }

    /// The output amplitude.
    pub closed spec fn spec_amplitude(&self) -> i64 {
        self.amplitude
    }

    /// Scale the output of `noise` by `amplitude`.
    pub fn new(noise: N, amplitude: i64) -> (r: Scale<N>)
        ensures
            r.spec_noise() == noise,
            r.spec_amplitude() == amplitude,
    {
        Scale { noise, amplitude }
    }

    /// The inner source.
    pub fn inner_noise(&self) -> (r: &N)
        ensures
            r == self.spec_noise(),
    {
        &self.noise
    }

    /// The output amplitude.
    pub fn amplitude(&self) -> (r: i64)
        ensures
            r == self.spec_amplitude(),
    {
        self.amplitude
    }
}

impl<P: Copy, N: Noise<P>> Noise<P> for Scale<N> {
    open spec fn wf(&self) -> bool {
        self.spec_noise().wf()
    }

    open spec fn valid_at(&self, p: P) -> bool {
        &&& self.spec_noise().valid_at(p)
        &&& fits_i64(fxmul(self.spec_noise().spec_value(p), self.spec_amplitude() as int))
    }

    open spec fn spec_value(&self, p: P) -> int {
        fxmul(self.spec_noise().spec_value(p), self.spec_amplitude() as int)
    }

    open spec fn frequency_defined(&self) -> bool {
        self.spec_noise().frequency_defined()
    }

    open spec fn spec_frequency(&self) -> P {
        self.spec_noise().spec_frequency()
    }

    fn value_at(&self, p: P) -> (v: i64) {
        let inner = self.noise.value_at(p);
        fx_mul(inner, self.amplitude)
    }

    fn frequency(&self) -> (f: P) {
        self.noise.frequency()
    }
}

/// The range remap as a mathematical function: the inner value is brought
/// from `[-ONE, ONE]` to a normalized `[0, ONE]` and stretched into
/// `[min, max]`.
pub open spec fn spec_with_range(v: int, min: int, max: int) -> int {
    min + fxmul(32768 + fxmul(v, 32768), max - min)
}

impl<N> WithRange<N> {
    /// The inner source.
    pub closed spec fn spec_noise(&self) -> N {
        self.noise
    }

    /// The lower end of the output range.
    pub closed spec fn spec_min(&self) -> i64 {
        self.min
    }

    /// The upper end of the output range.
    pub closed spec fn spec_max(&self) -> i64 {
        self.max
    }

    /// Remap the output of `noise` into `[min, max]`; the lower end must lie
    /// strictly below the upper.
    pub fn new(noise: N, min: i64, max: i64) -> (result: Result<WithRange<N>, NoiseError>)
        ensures
            match result {
                Ok(r) => {
                    &&& min < max
                    &&& r.spec_noise() == noise
                    &&& r.spec_min() == min
                    &&& r.spec_max() == max
                },
                Err(e) => {
                    &&& e == NoiseError::InvalidRange
                    &&& min >= max
                },
            },
    {
        if min >= max {
            return Err(NoiseError::InvalidRange);
        }
        Ok(WithRange { noise, min, max })
    }

    /// The inner source.
    pub fn inner_noise(&self) -> (r: &N)
        ensures
            r == self.spec_noise(),
    {
        &self.noise
    }

    /// The lower end of the output range.
    pub fn min(&self) -> (r: i64)
        ensures
            r == self.spec_min(),
    {
        self.min
    }

    /// The upper end of the output range.
    pub fn max(&self) -> (r: i64)
        ensures
            r == self.spec_max(),
    {
        self.max
    }
}

impl<P: Copy, N: Noise<P>> Noise<P> for WithRange<N> {
    open spec fn wf(&self) -> bool {
        &&& self.spec_noise().wf()
        &&& self.spec_min() < self.spec_max()
    }

    open spec fn valid_at(&self, p: P) -> bool {
        &&& self.spec_noise().valid_at(p)
        &&& fits_i64(self.spec_max() - self.spec_min())
        &&& fits_i64(32768 + fxmul(self.spec_noise().spec_value(p), 32768))
        &&& fits_i64(
            fxmul(
                32768 + fxmul(self.spec_noise().spec_value(p), 32768),
                self.spec_max() as int - self.spec_min() as int,
            ),
        )
        &&& fits_i64(spec_with_range(self.spec_noise().spec_value(p), self.spec_min() as int, self.spec_max() as int))
    }

    open spec fn spec_value(&self, p: P) -> int {
        spec_with_range(self.spec_noise().spec_value(p), self.spec_min() as int, self.spec_max() as int)
    }

    open spec fn frequency_defined(&self) -> bool {
        self.spec_noise().frequency_defined()
    }

    open spec fn spec_frequency(&self) -> P {
        self.spec_noise().spec_frequency()
    }

    fn value_at(&self, p: P) -> (v: i64) {
        let inner = self.noise.value_at(p);
        proof {
            crate::fixed::lemma_fxmul_unit(inner as int, 32768, if inner >= 0 {
                inner as int
            } else {
                -(inner as int)
            });
        }
        let normalized: i64 = 32768 + fx_mul(inner, 32768);
        let scaled: i64 = fx_mul(normalized, self.max - self.min);
        self.min + scaled
    }

    fn frequency(&self) -> (f: P) {
        self.noise.frequency()
    }
}

} // verus!
