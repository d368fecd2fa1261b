//! Dimension slicing: a higher-dimensional source projected down by fixing
//! its last axis to a constant.

use vstd::prelude::*;

verus! {

use crate::noise::Noise;
use crate::point::{Point2, Point3};

/// A two-dimensional source evaluated in one dimension at a fixed height.
#[derive(Clone, Debug)]
pub struct Slice1d<N> {
    noise: N,
    height: i64,
}

/// A three-dimensional source evaluated in two dimensions at a fixed depth.
#[derive(Clone, Debug)]
pub struct Slice2d<N> {
    noise: N,
    depth: i64,
}

impl<N> Slice1d<N> {
    /// The inner source.
    pub closed spec fn spec_noise(&self) -> N {
        self.noise
    }

    /// The fixed second coordinate.
    pub closed spec fn spec_height(&self) -> i64 {
        self.height
    }

    /// Project a two-dimensional source to one dimension at `height`.
    pub fn new(noise: N, height: i64) -> (r: Slice1d<N>)
        ensures
            r.spec_noise() == noise,
            r.spec_height() == height,
    {
        Slice1d { noise, height }
    }

    /// The inner source.
    pub fn noise(&self) -> (r: &N)
        ensures
            r == self.spec_noise(),
    {
        &self.noise
    }

    /// The fixed second coordinate.
    pub fn slice_height(&self) -> (r: i64)
        ensures
            r == self.spec_height(),
    {
        self.height
    }
}

impl<N: Noise<Point2>> Noise<i64> for Slice1d<N> {
    open spec fn wf(&self) -> bool {
        self.spec_noise().wf()
    }

    open spec fn valid_at(&self, p: i64) -> bool {
        self.spec_noise().valid_at(Point2 { x: p, y: self.spec_height() })
    }

    open spec fn spec_value(&self, p: i64) -> int {
        self.spec_noise().spec_value(Point2 { x: p, y: self.spec_height() })
    }

    open spec fn frequency_defined(&self) -> bool {
        self.spec_noise().frequency_defined()
    }

    open spec fn spec_frequency(&self) -> i64 {
        self.spec_noise().spec_frequency().x
    }

    fn value_at(&self, p: i64) -> (v: i64) {
        self.noise.value_at(Point2 { x: p, y: self.height })
    }

    fn frequency(&self) -> (f: i64) {
        self.noise.frequency().x
    }
}

impl<N> Slice2d<N> {
    /// The inner source.
    pub closed spec fn spec_noise(&self) -> N {
        self.noise
    }

    /// The fixed third coordinate.
    pub closed spec fn spec_depth(&self) -> i64 {
        self.depth
    }

    /// Project a three-dimensional source to two dimensions at `depth`.
    pub fn new(noise: N, depth: i64) -> (r: Slice2d<N>)
        ensures
            r.spec_noise() == noise,
            r.spec_depth() == depth,
    {
        Slice2d { noise, depth }
    }

    /// The inner source.
    pub fn noise(&self) -> (r: &N)
        ensures
            r == self.spec_noise(),
    {
        &self.noise
    }

    /// The fixed third coordinate.
    pub fn slice_depth(&self) -> (r: i64)
        ensures
            r == self.spec_depth(),
    {
        self.depth
    }
}

impl<N: Noise<Point3>> Noise<Point2> for Slice2d<N> {
    open spec fn wf(&self) -> bool {
        self.spec_noise().wf()
    }

    open spec fn valid_at(&self, p: Point2) -> bool {
        self.spec_noise().valid_at(Point3 { x: p.x, y: p.y, z: self.spec_depth() })
    }

    open spec fn spec_value(&self, p: Point2) -> int {
        self.spec_noise().spec_value(Point3 { x: p.x, y: p.y, z: self.spec_depth() })
    }

    open spec fn frequency_defined(&self) -> bool {
        self.spec_noise().frequency_defined()
    }

    open spec fn spec_frequency(&self) -> Point2 {
        let f = self.spec_noise().spec_frequency();
        Point2 { x: f.x, y: f.y }
    }

    fn value_at(&self, p: Point2) -> (v: i64) {
        self.noise.value_at(Point3 { x: p.x, y: p.y, z: self.depth })
    }

    fn frequency(&self) -> (f: Point2) {
        let inner = self.noise.frequency();
        Point2 { x: inner.x, y: inner.y }
    }
}

} // verus!
