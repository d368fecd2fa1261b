//! Source adapters that generate values without an inner noise source.

use vstd::prelude::*;

verus! {

use crate::fixed::{ONE, fxmul, fits_i64, fx_mul};
use crate::noise::Noise;
use crate::point::PointUtil;

/// A value-function capability: an arbitrary function from points to values,
/// pinned by its own mathematical specification.
pub trait ValueFn<P: Copy>: Sized {
    /// The points at which the function stays representable.
    spec fn vf_ok(&self, p: P) -> bool;

    /// The function as a mathematical map.
    spec fn spec_call(&self, p: P) -> int;

    /// Compute the function.
    fn call(&self, p: P) -> (v: i64)
        requires
            self.vf_ok(p),
        ensures
            v as int == self.spec_call(p),
    ;
}

/// A one-dimensional linear map: the coordinate scaled by a fixed slope.
#[derive(Clone, Copy, Debug)]
pub struct LinearValue {
    pub slope: i64,
}

impl ValueFn<i64> for LinearValue {
    open spec fn vf_ok(&self, p: i64) -> bool {
        fits_i64(fxmul(self.slope as int, p as int))
    }

    open spec fn spec_call(&self, p: i64) -> int {
        fxmul(self.slope as int, p as int)
    }

    fn call(&self, p: i64) -> (v: i64) {
        fx_mul(self.slope, p)
    }
}

/// A source with the same value at every point of any coordinate space.
#[derive(Clone, Copy, Debug)]
pub struct Constant {
    value: i64,
}

impl Constant {
    /// The constant value.
    pub closed spec fn spec_constant(&self) -> i64 {
        self.value
    }

    /// A source that always evaluates to `value`.
    pub fn new(value: i64) -> (r: Constant)
        ensures
            r.spec_constant() == value,
    {
        Constant { value }
    }

    /// The constant value.
    pub fn value(&self) -> (r: i64)
        ensures
            r == self.spec_constant(),
    {
        self.value
    }
}

impl<P: Copy + PointUtil> Noise<P> for Constant {
    open spec fn wf(&self) -> bool {
        true
    }

    open spec fn valid_at(&self, p: P) -> bool {
        true
    }

    open spec fn spec_value(&self, p: P) -> int {
        self.spec_constant() as int
    }

    open spec fn frequency_defined(&self) -> bool {
        true
    }

    open spec fn spec_frequency(&self) -> P {
        P::spec_splat(ONE as int)
    }

    fn value_at(&self, p: P) -> (v: i64) {
        self.value
    }

    fn frequency(&self) -> (f: P) {
        P::splat(ONE)
    }
}

/// A source that delegates entirely to a value function.
#[derive(Clone, Copy, Debug)]
pub struct FunctionValue<D> {
    function: D,
}

impl<D> FunctionValue<D> {
    /// The wrapped value function.
    pub closed spec fn spec_function(&self) -> D {
        self.function
    }

    /// A source computing `function` at every queried point.
    pub fn new(function: D) -> (r: FunctionValue<D>)
        ensures
            r.spec_function() == function,
    {
        FunctionValue { function }
    }

    /// The wrapped value function.
    pub fn function(&self) -> (r: &D)
        ensures
            r == self.spec_function(),
    {
        &self.function
    }
}

impl<P: Copy + PointUtil, D: ValueFn<P>> Noise<P> for FunctionValue<D> {
    open spec fn wf(&self) -> bool {
        true
    }

    open spec fn valid_at(&self, p: P) -> bool {
        self.spec_function().vf_ok(p)
    }

    open spec fn spec_value(&self, p: P) -> int {
        self.spec_function().spec_call(p)
    }

    open spec fn frequency_defined(&self) -> bool {
        true
    }

    open spec fn spec_frequency(&self) -> P {
        P::spec_splat(ONE as int)
    }

    fn value_at(&self, p: P) -> (v: i64) {
        self.function.call(p)
    }

    fn frequency(&self) -> (f: P) {
        P::splat(ONE)
    }
}

} // verus!
