//! Dimension extension: a lower-dimensional source lifted into a higher
//! dimension by ignoring the extra trailing axis.

use vstd::prelude::*;

verus! {

use crate::fixed::ONE;
use crate::noise::Noise;
use crate::point::{Point2, Point3};

/// A one-dimensional source evaluated in two dimensions; the second
/// coordinate axis is ignored.
#[derive(Clone, Debug)]
pub struct Extension2d<N> {
    noise: N,
}

/// A two-dimensional source evaluated in three dimensions; the third
/// coordinate axis is ignored.
#[derive(Clone, Debug)]
pub struct Extension3d<N> {
    noise: N,
}

impl<N> Extension2d<N> {
    /// The inner source.
    pub closed spec fn spec_noise(&self) -> N {
        self.noise
    }

    /// Lift a one-dimensional source into two dimensions.
    pub fn new(noise: N) -> (r: Extension2d<N>)
        ensures
            r.spec_noise() == noise,
    {
        Extension2d { noise }
    }

    /// The inner source.
    pub fn inner_noise(&self) -> (r: &N)
        ensures
            r == self.spec_noise(),
    {
        &self.noise
    }
}

impl<N: Noise<i64>> Noise<Point2> for Extension2d<N> {
    open spec fn wf(&self) -> bool {
        self.spec_noise().wf()
    }

    open spec fn valid_at(&self, p: Point2) -> bool {
        self.spec_noise().valid_at(p.x)
    }

    open spec fn spec_value(&self, p: Point2) -> int {
        self.spec_noise().spec_value(p.x)
    }

    open spec fn frequency_defined(&self) -> bool {
        self.spec_noise().frequency_defined()
    }

    open spec fn spec_frequency(&self) -> Point2 {
        Point2 { x: self.spec_noise().spec_frequency(), y: ONE }
    }

    fn value_at(&self, p: Point2) -> (v: i64) {
        self.noise.value_at(p.x)
    }

    fn frequency(&self) -> (f: Point2) {
        Point2 { x: self.noise.frequency(), y: ONE }
    }
}

impl<N> Extension3d<N> {
    /// The inner source.
    pub closed spec fn spec_noise(&self) -> N {
        self.noise
    }

    /// Lift a two-dimensional source into three dimensions.
    pub fn new(noise: N) -> (r: Extension3d<N>)
        ensures
            r.spec_noise() == noise,
    {
        Extension3d { noise }
    }

    /// The inner source.
    pub fn inner_noise(&self) -> (r: &N)
        ensures
            r == self.spec_noise(),
    {
        &self.noise
    }
}

impl<N: Noise<Point2>> Noise<Point3> for Extension3d<N> {
    open spec fn wf(&self) -> bool {
        self.spec_noise().wf()
    }

    open spec fn valid_at(&self, p: Point3) -> bool {
        self.spec_noise().valid_at(Point2 { x: p.x, y: p.y })
    }

    open spec fn spec_value(&self, p: Point3) -> int {
        self.spec_noise().spec_value(Point2 { x: p.x, y: p.y })
    }

    open spec fn frequency_defined(&self) -> bool {
        self.spec_noise().frequency_defined()
    }

    open spec fn spec_frequency(&self) -> Point3 {
        let f = self.spec_noise().spec_frequency();
        Point3 { x: f.x, y: f.y, z: ONE }
    }

    fn value_at(&self, p: Point3) -> (v: i64) {
        self.noise.value_at(Point2 { x: p.x, y: p.y })
    }

    fn frequency(&self) -> (f: Point3) {
        let inner = self.noise.frequency();
        Point3 { x: inner.x, y: inner.y, z: ONE }
    }
}

/// Law: an extended source ignores the extra trailing axis. Two
/// two-dimensional points with the same first coordinate evaluate equally.
pub proof fn lemma_extension2d_ignores_trailing_axis<N: Noise<i64>>(
    n: &Extension2d<N>,
    p: Point2,
    q: Point2,
)
    requires
        p.x == q.x,
    ensures
        n.spec_value(p) == n.spec_value(q),
{
}

/// Law: a doubly extended source ignores the third axis. Two
/// three-dimensional points with the same leading coordinates evaluate
/// equally.
pub proof fn lemma_extension3d_ignores_trailing_axis<N: Noise<Point2>>(
    n: &Extension3d<N>,
    p: Point3,
    q: Point3,
)
    requires
        p.x == q.x,
        p.y == q.y,
    ensures
        n.spec_value(p) == n.spec_value(q),
{
}

} // verus!
