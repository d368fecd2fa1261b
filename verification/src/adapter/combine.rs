//! Arithmetic and selection combinators over two or three noise sources.

use vstd::prelude::*;

verus! {

use crate::fixed::{fxmul, fits_i64, fx_mul};
use crate::noise::Noise;
use crate::point::PointUtil;
use crate::adapter::blend::BlendFn;

/// A binary combining capability: an arbitrary function of two samples.
pub trait Combiner: Sized {
    /// The inputs on which the combination stays representable.
    spec fn c_ok(&self, a: int, b: int) -> bool;

    /// The combination as a mathematical function.
    spec fn spec_combine(&self, a: int, b: int) -> int;

    /// Compute the combination.
    fn combine(&self, a: i64, b: i64) -> (r: i64)
        requires
            self.c_ok(a as int, b as int),
        ensures
            r as int == self.spec_combine(a as int, b as int),
    ;
}

/// Combine two samples by taking the larger.
#[derive(Clone, Copy, Debug, Default)]
pub struct MaxCombiner;

impl Combiner for MaxCombiner {
    open spec fn c_ok(&self, a: int, b: int) -> bool {
        true
    }

    open spec fn spec_combine(&self, a: int, b: int) -> int {
        if a >= b {
            a
        } else {
            b
        }
    }

    fn combine(&self, a: i64, b: i64) -> (r: i64) {
        if a >= b {
            a
        } else {
            b
        }
    }
}

/// The sum of two noise sources.
#[derive(Clone, Debug)]
pub struct Add<N1, N2> {
    left_noise: N1,
    right_noise: N2,
}

/// The product of two noise sources.
#[derive(Clone, Debug)]
pub struct Multiply<N1, N2> {
    left_noise: N1,
    right_noise: N2,
}

/// Two noise sources combined by an arbitrary binary function.
#[derive(Clone, Debug)]
pub struct Combine<N1, N2, F> {
    left_noise: N1,
    right_noise: N2,
    combiner: F,
}

/// One of two noise sources selected by a criteria source against a
/// threshold: the left source where the criteria exceeds the threshold
/// strictly, the right one otherwise (the boundary goes right).
#[derive(Clone, Debug)]
pub struct Select<N1, N2, N3> {
    left_noise: N1,
    right_noise: N2,
    criteria: N3,
    threshold: i64,
}

/// Two noise sources blended under a criteria source by a ternary blend
/// function.
#[derive(Clone, Debug)]
pub struct Blend<N1, N2, N3, F> {
    left_noise: N1,
    right_noise: N2,
    criteria: N3,
    blend_fn: F,
}

impl<N1, N2> Add<N1, N2> {
    /// The left source.
    pub closed spec fn spec_left(&self) -> N1 {
        self.left_noise
    }

    /// The right source.
    pub closed spec fn spec_right(&self) -> N2 {
        self.right_noise
    }

    /// Sum two sources.
    pub fn new(left_noise: N1, right_noise: N2) -> (r: Add<N1, N2>)
        ensures
            r.spec_left() == left_noise,
            r.spec_right() == right_noise,
    {
        Add { left_noise, right_noise }
    }

    /// The left source.
    pub fn left_noise(&self) -> (r: &N1)
        ensures
            r == self.spec_left(),
    {
        &self.left_noise
    }

    /// The right source.
    pub fn right_noise(&self) -> (r: &N2)
        ensures
            r == self.spec_right(),
    {
        &self.right_noise
    }
}

impl<P: Copy + PointUtil, N1: Noise<P>, N2: Noise<P>> Noise<P> for Add<N1, N2> {
    open spec fn wf(&self) -> bool {
        self.spec_left().wf() && self.spec_right().wf()
    }

    open spec fn valid_at(&self, p: P) -> bool {
        &&& self.spec_left().valid_at(p)
        &&& self.spec_right().valid_at(p)
        &&& fits_i64(self.spec_left().spec_value(p) + self.spec_right().spec_value(p))
    }

    open spec fn spec_value(&self, p: P) -> int {
        self.spec_left().spec_value(p) + self.spec_right().spec_value(p)
    }

    open spec fn frequency_defined(&self) -> bool {
        self.spec_left().frequency_defined() && self.spec_right().frequency_defined()
    }

    open spec fn spec_frequency(&self) -> P {
        self.spec_left().spec_frequency().spec_axis_max(self.spec_right().spec_frequency())
    }

    fn value_at(&self, p: P) -> (v: i64) {
        self.left_noise.value_at(p) + self.right_noise.value_at(p)
    }

    fn frequency(&self) -> (f: P) {
        self.left_noise.frequency().axis_max(self.right_noise.frequency())
    }
}

/// Law: the sum adapter evaluates to the sum of its parts, at every point
/// where both parts evaluate and the sum stays representable.
pub proof fn lemma_add_law<P: Copy + PointUtil, N1: Noise<P>, N2: Noise<P>>(
    n: &Add<N1, N2>,
    p: P,
)
    ensures
        n.spec_value(p) == n.spec_left().spec_value(p) + n.spec_right().spec_value(p),
{
}

impl<N1, N2> Multiply<N1, N2> {
    /// The left source.
    pub closed spec fn spec_left(&self) -> N1 {
        self.left_noise
    }

    /// The right source.
    pub closed spec fn spec_right(&self) -> N2 {
        self.right_noise
    }

    /// Multiply two sources.
    pub fn new(left_noise: N1, right_noise: N2) -> (r: Multiply<N1, N2>)
        ensures
            r.spec_left() == left_noise,
            r.spec_right() == right_noise,
    {
        Multiply { left_noise, right_noise }
    }

    /// The left source.
    pub fn left_noise(&self) -> (r: &N1)
        ensures
            r == self.spec_left(),
    {
        &self.left_noise
    }

    /// The right source.
    pub fn right_noise(&self) -> (r: &N2)
        ensures
            r == self.spec_right(),
    {
        &self.right_noise
    }
}

impl<P: Copy + PointUtil, N1: Noise<P>, N2: Noise<P>> Noise<P> for Multiply<N1, N2> {
    open spec fn wf(&self) -> bool {
        self.spec_left().wf() && self.spec_right().wf()
    }

    open spec fn valid_at(&self, p: P) -> bool {
        &&& self.spec_left().valid_at(p)
        &&& self.spec_right().valid_at(p)
        &&& fits_i64(fxmul(self.spec_left().spec_value(p), self.spec_right().spec_value(p)))
    }

    open spec fn spec_value(&self, p: P) -> int {
        fxmul(self.spec_left().spec_value(p), self.spec_right().spec_value(p))
    }

    open spec fn frequency_defined(&self) -> bool {
        self.spec_left().frequency_defined() && self.spec_right().frequency_defined()
    }

    open spec fn spec_frequency(&self) -> P {
        self.spec_left().spec_frequency().spec_axis_max(self.spec_right().spec_frequency())
    }

    fn value_at(&self, p: P) -> (v: i64) {
        let l = self.left_noise.value_at(p);
        let r = self.right_noise.value_at(p);
        fx_mul(l, r)
    }

    fn frequency(&self) -> (f: P) {
        self.left_noise.frequency().axis_max(self.right_noise.frequency())
    }
}

impl<N1, N2, F> Combine<N1, N2, F> {
    /// The left source.
    pub closed spec fn spec_left(&self) -> N1 {
        self.left_noise
    }

    /// The right source.
    pub closed spec fn spec_right(&self) -> N2 {
        self.right_noise
    }

    /// The combining function.
    pub closed spec fn spec_combiner(&self) -> F {
        self.combiner
    }

    /// Combine two sources by an arbitrary binary function.
    pub fn new(left_noise: N1, right_noise: N2, combiner: F) -> (r: Combine<N1, N2, F>)
        ensures
            r.spec_left() == left_noise,
            r.spec_right() == right_noise,
            r.spec_combiner() == combiner,
    {
        Combine { left_noise, right_noise, combiner }
    }

    /// The left source.
    pub fn left_noise(&self) -> (r: &N1)
        ensures
            r == self.spec_left(),
    {
        &self.left_noise
    }

    /// The right source.
    pub fn right_noise(&self) -> (r: &N2)
        ensures
            r == self.spec_right(),
    {
        &self.right_noise
    }

    /// The combining function.
    pub fn combiner_fn(&self) -> (r: &F)
        ensures
            r == self.spec_combiner(),
    {
        &self.combiner
    }
}

impl<P: Copy + PointUtil, N1: Noise<P>, N2: Noise<P>, F: Combiner> Noise<P> for Combine<
    N1,
    N2,
    F,
> {
    open spec fn wf(&self) -> bool {
        self.spec_left().wf() && self.spec_right().wf()
    }

    open spec fn valid_at(&self, p: P) -> bool {
        &&& self.spec_left().valid_at(p)
        &&& self.spec_right().valid_at(p)
        &&& self.spec_combiner().c_ok(
            self.spec_left().spec_value(p),
            self.spec_right().spec_value(p),
        )
    }

    open spec fn spec_value(&self, p: P) -> int {
        self.spec_combiner().spec_combine(
            self.spec_left().spec_value(p),
            self.spec_right().spec_value(p),
        )
    }

    open spec fn frequency_defined(&self) -> bool {
        self.spec_left().frequency_defined() && self.spec_right().frequency_defined()
    }

    open spec fn spec_frequency(&self) -> P {
        self.spec_left().spec_frequency().spec_axis_max(self.spec_right().spec_frequency())
    }

    fn value_at(&self, p: P) -> (v: i64) {
        let l = self.left_noise.value_at(p);
        let r = self.right_noise.value_at(p);
        self.combiner.combine(l, r)
    }

    fn frequency(&self) -> (f: P) {
        self.left_noise.frequency().axis_max(self.right_noise.frequency())
    }
}

impl<N1, N2, N3> Select<N1, N2, N3> {
    /// The source taken above the threshold.
    pub closed spec fn spec_left(&self) -> N1 {
        self.left_noise
    }

    /// The source taken at and below the threshold.
    pub closed spec fn spec_right(&self) -> N2 {
        self.right_noise
    }

    /// The criteria source.
    pub closed spec fn spec_criteria(&self) -> N3 {
        self.criteria
    }

    /// The selection threshold.
    pub closed spec fn spec_threshold(&self) -> i64 {
        self.threshold
    }

    /// Select between two sources by a criteria source and threshold.
    pub fn new(left_noise: N1, right_noise: N2, criteria: N3, threshold: i64) -> (r: Select<
        N1,
        N2,
        N3,
    >)
        ensures
            r.spec_left() == left_noise,
            r.spec_right() == right_noise,
            r.spec_criteria() == criteria,
            r.spec_threshold() == threshold,
    {
        Select { left_noise, right_noise, criteria, threshold }
    }

    /// The source taken above the threshold.
    pub fn left_noise(&self) -> (r: &N1)
        ensures
            r == self.spec_left(),
    {
        &self.left_noise
    }

    /// The source taken at and below the threshold.
    pub fn right_noise(&self) -> (r: &N2)
        ensures
            r == self.spec_right(),
    {
        &self.right_noise
    }

    /// The criteria source.
    pub fn criteria(&self) -> (r: &N3)
        ensures
            r == self.spec_criteria(),
    {
        &self.criteria
    }

    /// The selection threshold.
    pub fn threshold(&self) -> (r: i64)
        ensures
            r == self.spec_threshold(),
    {
        self.threshold
    }
}

impl<P: Copy + PointUtil, N1: Noise<P>, N2: Noise<P>, N3: Noise<P>> Noise<P> for Select<
    N1,
    N2,
    N3,
> {
    open spec fn wf(&self) -> bool {
        self.spec_left().wf() && self.spec_right().wf() && self.spec_criteria().wf()
    }

    open spec fn valid_at(&self, p: P) -> bool {
        &&& self.spec_left().valid_at(p)
        &&& self.spec_right().valid_at(p)
        &&& self.spec_criteria().valid_at(p)
    }

    open spec fn spec_value(&self, p: P) -> int {
        if self.spec_criteria().spec_value(p) > self.spec_threshold() as int {
            self.spec_left().spec_value(p)
        } else {
            self.spec_right().spec_value(p)
        }
    }

    open spec fn frequency_defined(&self) -> bool {
        self.spec_left().frequency_defined() && self.spec_right().frequency_defined()
    }

    open spec fn spec_frequency(&self) -> P {
        self.spec_left().spec_frequency().spec_axis_max(self.spec_right().spec_frequency())
    }

    fn value_at(&self, p: P) -> (v: i64) {
        let c = self.criteria.value_at(p);
        if c > self.threshold {
            self.left_noise.value_at(p)
        } else {
            self.right_noise.value_at(p)
        }
    }

    fn frequency(&self) -> (f: P) {
        self.left_noise.frequency().axis_max(self.right_noise.frequency())
    }
}

/// Law: selection is strict. Where the criteria equals the threshold
/// exactly, the right source is taken; where it exceeds the threshold
/// strictly, the left one.
pub proof fn lemma_select_boundary<P: Copy + PointUtil, N1: Noise<P>, N2: Noise<P>, N3: Noise<P>>(
    n: &Select<N1, N2, N3>,
    p: P,
)
    ensures
        n.spec_criteria().spec_value(p) == n.spec_threshold() as int ==> n.spec_value(p)
            == n.spec_right().spec_value(p),
        n.spec_criteria().spec_value(p) > n.spec_threshold() as int ==> n.spec_value(p)
            == n.spec_left().spec_value(p),
{
}

impl<N1, N2, N3, F> Blend<N1, N2, N3, F> {
    /// The first sample source.
    pub closed spec fn spec_left(&self) -> N1 {
        self.left_noise
    }

    /// The second sample source.
    pub closed spec fn spec_right(&self) -> N2 {
        self.right_noise
    }

    /// The criteria source driving the blend parameter.
    pub closed spec fn spec_criteria(&self) -> N3 {
        self.criteria
    }

    /// The blend function.
    pub closed spec fn spec_blend_fn(&self) -> F {
        self.blend_fn
    }

    /// Blend two sources under a criteria source.
    pub fn new(left_noise: N1, right_noise: N2, criteria: N3, blend_fn: F) -> (r: Blend<
        N1,
        N2,
        N3,
        F,
    >)
        ensures
            r.spec_left() == left_noise,
            r.spec_right() == right_noise,
            r.spec_criteria() == criteria,
            r.spec_blend_fn() == blend_fn,
    {
        Blend { left_noise, right_noise, criteria, blend_fn }
    }

    /// The first sample source.
    pub fn left_noise(&self) -> (r: &N1)
        ensures
            r == self.spec_left(),
    {
        &self.left_noise
    }

    /// The second sample source.
    pub fn right_noise(&self) -> (r: &N2)
        ensures
            r == self.spec_right(),
    {
        &self.right_noise
    }

    /// The criteria source.
    pub fn criteria(&self) -> (r: &N3)
        ensures
            r == self.spec_criteria(),
    {
        &self.criteria
    }

    /// The blend function.
    pub fn blend_fn(&self) -> (r: &F)
        ensures
            r == self.spec_blend_fn(),
    {
        &self.blend_fn
    }
}

impl<P: Copy + PointUtil, N1: Noise<P>, N2: Noise<P>, N3: Noise<P>, F: BlendFn> Noise<P> for Blend<
    N1,
    N2,
    N3,
    F,
> {
    open spec fn wf(&self) -> bool {
        self.spec_left().wf() && self.spec_right().wf() && self.spec_criteria().wf()
    }

    open spec fn valid_at(&self, p: P) -> bool {
        &&& self.spec_left().valid_at(p)
        &&& self.spec_right().valid_at(p)
        &&& self.spec_criteria().valid_at(p)
    }

    open spec fn spec_value(&self, p: P) -> int {
        self.spec_blend_fn().spec_blend(
            self.spec_left().spec_value(p),
            self.spec_right().spec_value(p),
            self.spec_criteria().spec_value(p),
        )
    }

    open spec fn frequency_defined(&self) -> bool {
        self.spec_left().frequency_defined() && self.spec_right().frequency_defined()
    }

    open spec fn spec_frequency(&self) -> P {
        self.spec_left().spec_frequency().spec_axis_max(self.spec_right().spec_frequency())
    }

    fn value_at(&self, p: P) -> (v: i64) {
        let val1 = self.left_noise.value_at(p);
        let val2 = self.right_noise.value_at(p);
        let c = self.criteria.value_at(p);
        self.blend_fn.blend(val1, val2, c)
    }

    fn frequency(&self) -> (f: P) {
        self.left_noise.frequency().axis_max(self.right_noise.frequency())
    }
}

} // verus!
