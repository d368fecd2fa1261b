//! Gradients of the lattice: builders, tables and providers.

use vstd::prelude::*;

pub mod builder;
pub mod factory;
pub mod permutation;
pub mod provider;

verus! {

use crate::fixed::ONE;
use crate::point::{Point2, Point3};

pub use builder::{CubeGradientBuilder1d, CubeGradientBuilder2d, RandomGradientBuilder1d, RandomGradientBuilder2d, RandomGradientBuilder3d, spec_square_norm_2d, spec_square_norm_3d};
pub use factory::{GradientFactory, PermutationGradientFactory};
pub use permutation::{PermutationTable, lemma_permutation_is_bijection};
pub use provider::{GradientProvider, GradientTable, PermutedGradientTable, LatticeIndex, Lattice2, Lattice3, cube_gradient_table_2d};

/// A gradient vector: a fixed-point scalar slope in one dimension, a pair or
/// a triple of fixed-point components in two or three. A gradient is in
/// range (`gv_ok`) when every component lies within `[-ONE, ONE]`, as a unit
/// direction's components do.
pub trait GradientVector: Copy {
    /// Every component lies within `[-ONE, ONE]`.
    spec fn gv_ok(self) -> bool;

    /// Decide whether every component lies within `[-ONE, ONE]`.
    fn check_ok(self) -> (b: bool)
        ensures
            b == self.gv_ok(),
    ;
}

impl GradientVector for i64 {
    open spec fn gv_ok(self) -> bool {
        -ONE <= self <= ONE
    }

    fn check_ok(self) -> (b: bool) {
        -ONE <= self && self <= ONE
    }
}

impl GradientVector for Point2 {
    open spec fn gv_ok(self) -> bool {
        -ONE <= self.x <= ONE && -ONE <= self.y <= ONE
    }

    fn check_ok(self) -> (b: bool) {
        -ONE <= self.x && self.x <= ONE && -ONE <= self.y && self.y <= ONE
    }
}

impl GradientVector for Point3 {
    open spec fn gv_ok(self) -> bool {
        -ONE <= self.x <= ONE && -ONE <= self.y <= ONE && -ONE <= self.z <= ONE
    }

    fn check_ok(self) -> (b: bool) {
        -ONE <= self.x && self.x <= ONE && -ONE <= self.y && self.y <= ONE && -ONE <= self.z
            && self.z <= ONE
    }
}

/// A strategy producing one random gradient on demand from its own random
/// state. Whatever the random source returns, the produced gradient's
/// components stay within `[-ONE, ONE]` and the gradient lies in the
/// builder's stated outcome set.
pub trait GradientBuilder<G: GradientVector>: Sized {
    /// The gradients this builder can produce, whatever the random source
    /// returns (for the cube builders an explicit list; for the direction
    /// samplers, vectors of near-unit length).
    spec fn spec_outcome(g: G) -> bool;

    /// Produce the next gradient.
    fn make_gradient(&mut self) -> (g: G)
        ensures
            g.gv_ok(),
            Self::spec_outcome(g),
    ;
}

} // verus!
