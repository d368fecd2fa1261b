//! The noise capability.
//!
//! A noise source is any value that can be evaluated at a point of its
//! coordinate space and report a frequency descriptor of the same arity.
//! Base evaluators, octave sums and every adapter implement this one trait,
//! so arbitrarily deep compositions evaluate through a single interface.

use vstd::prelude::*;

verus! {

/// A scalar field over points of type `P` (a fixed-point value for one
/// dimension, a pair or triple of fixed-point values for two or three).
///
/// `spec_value` is the field as a mathematical function; `value_at` computes
/// exactly that function. `wf` is the value's internal invariant, established
/// by constructors; `valid_at` says at which points evaluation is defined
/// (for gradient noise, coordinates normalized to `[0, ONE)`; for arithmetic
/// adapters, points where the combined value stays representable).
pub trait Noise<P: Copy>: Sized {
    /// The internal invariant of this noise source.
    spec fn wf(&self) -> bool;

    /// The points at which this source can be evaluated.
    spec fn valid_at(&self, p: P) -> bool;

    /// The field as a mathematical function of the point.
    spec fn spec_value(&self, p: P) -> int;

    /// Whether this source has a meaningful frequency (an octave sequence
    /// with no octaves has none).
    spec fn frequency_defined(&self) -> bool;

    /// The frequency descriptor: how many lattice cells span the normalized
    /// `[0, ONE)` input range along each axis, in fixed point.
    spec fn spec_frequency(&self) -> P;

    /// Evaluate the field at `p`.
    fn value_at(&self, p: P) -> (v: i64)
        requires
            self.wf(),
            self.valid_at(p),
        ensures
            v as int == self.spec_value(p),
    ;

    /// Report the frequency descriptor.
    fn frequency(&self) -> (f: P)
        requires
            self.wf(),
            self.frequency_defined(),
        ensures
            f == self.spec_frequency(),
    ;
}

/// Law: evaluation is deterministic. `value_at` is pinned to the mathematical
/// function `spec_value`, so any two calls on the same source and the same
/// point return bit-identical results.
pub proof fn lemma_value_at_deterministic<P: Copy, N: Noise<P>>(n: &N, p: P, v1: i64, v2: i64)
    requires
        v1 as int == n.spec_value(p),
        v2 as int == n.spec_value(p),
    ensures
        v1 == v2,
{
}

} // verus!
