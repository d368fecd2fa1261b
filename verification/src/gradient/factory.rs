//! Gradient factories: strategies producing one gradient provider per
//! octave, for the fractal builders.

use vstd::prelude::*;

verus! {

use crate::gradient::{GradientProvider, GradientVector, Lattice2, Lattice3};
use crate::gradient::provider::PermutedGradientTable;

/// A strategy producing the gradient provider of one octave. Every provider
/// handed out is well-formed and unbounded (hash-indexed), so gradient noise
/// of any frequency can be built over it.
pub trait GradientFactory<I: crate::gradient::LatticeIndex, G: GradientVector, Pr: GradientProvider<
    I,
    G,
>>: Sized {
    /// The factory's own invariant.
    spec fn f_wf(&self) -> bool;

    /// Which providers a build call for the given octave can hand out (for
    /// a shared-table factory, exactly the copies of its table).
    spec fn spec_produces(&self, octave: u32, p: Pr) -> bool;

    /// Build the provider of one octave.
    fn build(&mut self, octave: u32) -> (p: Pr)
        requires
            old(self).f_wf(),
        ensures
            final(self).f_wf(),
            p.wf(),
            p.spec_max_dimensions() == None::<I>,
            old(self).spec_produces(octave, p),
    ;
}

/// A factory that hands every octave a copy of one fixed permuted gradient
/// table.
#[derive(Clone, Debug)]
pub struct PermutationGradientFactory<G> {
    table: PermutedGradientTable<G>,
}

impl<G: GradientVector> PermutationGradientFactory<G> {
    /// The shared table.
    pub closed spec fn spec_table(&self) -> PermutedGradientTable<G> {
        self.table
    }

    /// Share `table` across all octaves.
    pub fn new(table: PermutedGradientTable<G>) -> (r: PermutationGradientFactory<G>)
        ensures
            r.spec_table() == table,
    {
        PermutationGradientFactory { table }
    }
}

impl<G: GradientVector> GradientFactory<u32, G, PermutedGradientTable<G>>
    for PermutationGradientFactory<G> {
    open spec fn f_wf(&self) -> bool {
        self.spec_table().wf()
    }

    open spec fn spec_produces(&self, octave: u32, p: PermutedGradientTable<G>) -> bool {
        &&& p.spec_table()@ == self.spec_table().spec_table()@
        &&& p.spec_permutations()@ == self.spec_table().spec_permutations()@
    }

    fn build(&mut self, octave: u32) -> (p: PermutedGradientTable<G>) {
        self.table.duplicate()
    }
}

impl<G: GradientVector> GradientFactory<Lattice2, G, PermutedGradientTable<G>>
    for PermutationGradientFactory<G> {
    open spec fn f_wf(&self) -> bool {
        self.spec_table().wf()
    }

    open spec fn spec_produces(&self, octave: u32, p: PermutedGradientTable<G>) -> bool {
        &&& p.spec_table()@ == self.spec_table().spec_table()@
        &&& p.spec_permutations()@ == self.spec_table().spec_permutations()@
    }

    fn build(&mut self, octave: u32) -> (p: PermutedGradientTable<G>) {
        self.table.duplicate()
    }
}

impl<G: GradientVector> GradientFactory<Lattice3, G, PermutedGradientTable<G>>
    for PermutationGradientFactory<G> {
    open spec fn f_wf(&self) -> bool {
        self.spec_table().wf()
    }

    open spec fn spec_produces(&self, octave: u32, p: PermutedGradientTable<G>) -> bool {
        &&& p.spec_table()@ == self.spec_table().spec_table()@
        &&& p.spec_permutations()@ == self.spec_table().spec_permutations()@
    }

    fn build(&mut self, octave: u32) -> (p: PermutedGradientTable<G>) {
        self.table.duplicate()
    }
}

} // verus!
