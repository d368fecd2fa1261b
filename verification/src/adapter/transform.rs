//! Pointwise output transforms.

use vstd::prelude::*;

verus! {

use crate::fixed::fits_i64;
use crate::noise::Noise;

/// A pointwise transform capability: an arbitrary function of the original
/// coordinate and the inner source's value.
pub trait TransformFn<P: Copy>: Sized {
    /// The inputs on which the transform stays representable.
    spec fn t_ok(&self, p: P, v: int) -> bool;

    /// The transform as a mathematical function.
    spec fn spec_transform(&self, p: P, v: int) -> int;

    /// Compute the transform.
    fn transform(&self, p: P, v: i64) -> (r: i64)
        requires
            self.t_ok(p, v as int),
        ensures
            r as int == self.spec_transform(p, v as int),
    ;
}

/// Adds a fixed offset to every value, ignoring the coordinate.
#[derive(Clone, Copy, Debug)]
pub struct BiasTransform {
    pub offset: i64,
}

impl<P: Copy> TransformFn<P> for BiasTransform {
    open spec fn t_ok(&self, p: P, v: int) -> bool {
        fits_i64(v + self.offset)
    }

    open spec fn spec_transform(&self, p: P, v: int) -> int {
        v + self.offset
    }

    fn transform(&self, p: P, v: i64) -> (r: i64) {
        v + self.offset
    }
}

/// Applies an arbitrary pointwise transform to the inner source's output,
/// with access to the original coordinate.
#[derive(Clone, Debug)]
pub struct Transform<N, F> {
    noise: N,
    transform: F,
}

/// Negates the inner source's output.
#[derive(Clone, Debug)]
pub struct Negate<N> {
    noise: N,
}

impl<N, F> Transform<N, F> {
    /// The inner source.
    pub closed spec fn spec_noise(&self) -> N {
        self.noise
    }

    /// The transform function.
    pub closed spec fn spec_transform_fn(&self) -> F {
        self.transform
    }

    /// Post-process the output of `noise` by `transform`.
    pub fn new(noise: N, transform: F) -> (r: Transform<N, F>)
        ensures
            r.spec_noise() == noise,
            r.spec_transform_fn() == transform,
    {
        Transform { noise, transform }
    }

    /// The inner source.
    pub fn inner_noise(&self) -> (r: &N)
        ensures
            r == self.spec_noise(),
    {
        &self.noise
    }

    /// The transform function.
    pub fn transform_fn(&self) -> (r: &F)
        ensures
            r == self.spec_transform_fn(),
    {
        &self.transform
    }
}

impl<P: Copy, N: Noise<P>, F: TransformFn<P>> Noise<P> for Transform<N, F> {
    open spec fn wf(&self) -> bool {
        self.spec_noise().wf()
    }

    open spec fn valid_at(&self, p: P) -> bool {
        &&& self.spec_noise().valid_at(p)
        &&& self.spec_transform_fn().t_ok(p, self.spec_noise().spec_value(p))
    }

    open spec fn spec_value(&self, p: P) -> int {
        self.spec_transform_fn().spec_transform(p, self.spec_noise().spec_value(p))
    }

    open spec fn frequency_defined(&self) -> bool {
        self.spec_noise().frequency_defined()
    }

    open spec fn spec_frequency(&self) -> P {
        self.spec_noise().spec_frequency()
    }

    fn value_at(&self, p: P) -> (v: i64) {
        let inner = self.noise.value_at(p);
        self.transform.transform(p, inner)
    }

    fn frequency(&self) -> (f: P) {
        self.noise.frequency()
    }
}

impl<N> Negate<N> {
    /// The inner source.
    pub closed spec fn spec_noise(&self) -> N {
        self.noise
    }

    /// Negate the output of `noise`.
    pub fn new(noise: N) -> (r: Negate<N>)
        ensures
            r.spec_noise() == noise,
    {
        Negate { noise }
    }

    /// The inner source.
    pub fn inner_noise(&self) -> (r: &N)
        ensures
            r == self.spec_noise(),
    {
        &self.noise
    }
}

impl<P: Copy, N: Noise<P>> Noise<P> for Negate<N> {
    open spec fn wf(&self) -> bool {
        self.spec_noise().wf()
    }

    open spec fn valid_at(&self, p: P) -> bool {
        &&& self.spec_noise().valid_at(p)
        &&& fits_i64(-self.spec_noise().spec_value(p))
    }

    open spec fn spec_value(&self, p: P) -> int {
        -self.spec_noise().spec_value(p)
    }

    open spec fn frequency_defined(&self) -> bool {
        self.spec_noise().frequency_defined()
    }

    open spec fn spec_frequency(&self) -> P {
        self.spec_noise().spec_frequency()
    }

    fn value_at(&self, p: P) -> (v: i64) {
        let inner = self.noise.value_at(p);
        -inner
    }

    fn frequency(&self) -> (f: P) {
        self.noise.frequency()
    }
}

/// Law: negation evaluates to the negated inner value, at every point where
/// the inner source evaluates and the negation stays representable.
pub proof fn lemma_negate_law<P: Copy, N: Noise<P>>(n: &Negate<N>, p: P)
    ensures
        n.spec_value(p) == -n.spec_noise().spec_value(p),
{
}

} // verus!
