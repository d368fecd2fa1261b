//! Points of the coordinate spaces.
//!
//! A one-dimensional point is a bare fixed-point value; two- and
//! three-dimensional points are structs of fixed-point values. The
//! `PointUtil` trait gives the adapters the per-axis operations they need
//! (scaling, shifting, clamping, wrapping, component-wise maximum) uniformly
//! over the three arities.

use vstd::prelude::*;

verus! {

use crate::fixed::{
    fxmul, fits_i64, spec_clamp, spec_wrap, fx_mul, clamp_value, wrap_value,
};

/// A two-dimensional point (or frequency descriptor) in fixed point.
#[derive(Clone, Copy, Debug, PartialEq, Eq, Structural)]
pub struct Point2 {
    pub x: i64,
    pub y: i64,
}

/// A three-dimensional point (or frequency descriptor) in fixed point.
#[derive(Clone, Copy, Debug, PartialEq, Eq, Structural)]
pub struct Point3 {
    pub x: i64,
    pub y: i64,
    pub z: i64,
}

/// Per-axis operations shared by all point arities.
pub trait PointUtil: Copy {
    /// The point with `v` on every axis.
    spec fn spec_splat(v: int) -> Self;

    /// Build the point with `v` on every axis.
    fn splat(v: i64) -> (r: Self)
        ensures
            r == Self::spec_splat(v as int),
    ;

    /// Component-wise maximum.
    spec fn spec_axis_max(self, o: Self) -> Self;

    /// Compute the component-wise maximum.
    fn axis_max(self, o: Self) -> (r: Self)
        ensures
            r == self.spec_axis_max(o),
    ;

    /// Component-wise sums stay representable.
    spec fn add_ok(self, o: Self) -> bool;

    /// Component-wise sum.
    spec fn spec_axis_add(self, o: Self) -> Self;

    /// Compute the component-wise sum.
    fn axis_add(self, o: Self) -> (r: Self)
        requires
            self.add_ok(o),
        ensures
            r == self.spec_axis_add(o),
    ;

    /// Component-wise fixed-point products stay representable.
    spec fn mul_ok(self, o: Self) -> bool;

    /// Component-wise fixed-point product.
    spec fn spec_axis_mul(self, o: Self) -> Self;

    /// Compute the component-wise fixed-point product.
    fn axis_mul(self, o: Self) -> (r: Self)
        requires
            self.mul_ok(o),
        ensures
            r == self.spec_axis_mul(o),
    ;

    /// Strictly less on every axis.
    spec fn all_lt(self, o: Self) -> bool;

    /// Decide whether `self` is strictly less than `o` on every axis.
    fn check_lt(self, o: Self) -> (r: bool)
        ensures
            r == self.all_lt(o),
    ;

    /// Component-wise clamp into `[lo, hi]`.
    spec fn spec_axis_clamp(self, lo: Self, hi: Self) -> Self;

    /// Compute the component-wise clamp.
    fn axis_clamp(self, lo: Self, hi: Self) -> (r: Self)
        requires
            lo.all_lt(hi),
        ensures
            r == self.spec_axis_clamp(lo, hi),
    ;

    /// The differences feeding the modular wrap stay representable.
    spec fn wrap_ok(self, lo: Self, hi: Self) -> bool;

    /// Component-wise wrap into `[lo, hi)`.
    spec fn spec_axis_wrap(self, lo: Self, hi: Self) -> Self;

    /// Compute the component-wise wrap.
    fn axis_wrap(self, lo: Self, hi: Self) -> (r: Self)
        requires
            lo.all_lt(hi),
            self.wrap_ok(lo, hi),
        ensures
            r == self.spec_axis_wrap(lo, hi),
    ;
}

impl PointUtil for i64 {
    open spec fn spec_splat(v: int) -> Self {
        v as i64
    }

    fn splat(v: i64) -> (r: Self) {
        v
    }

    open spec fn spec_axis_max(self, o: Self) -> Self {
        if self >= o {
            self
        } else {
            o
        }
    }

    fn axis_max(self, o: Self) -> (r: Self) {
        if self >= o {
            self
        } else {
            o
        }
    }

    open spec fn add_ok(self, o: Self) -> bool {
        fits_i64(self + o)
    }

    open spec fn spec_axis_add(self, o: Self) -> Self {
        (self + o) as i64
    }

    fn axis_add(self, o: Self) -> (r: Self) {
        self + o
    }

    open spec fn mul_ok(self, o: Self) -> bool {
        fits_i64(fxmul(self as int, o as int))
    }

    open spec fn spec_axis_mul(self, o: Self) -> Self {
        fxmul(self as int, o as int) as i64
    }

    fn axis_mul(self, o: Self) -> (r: Self) {
        fx_mul(self, o)
    }

    open spec fn all_lt(self, o: Self) -> bool {
        self < o
    }

    fn check_lt(self, o: Self) -> (r: bool) {
        self < o
    }

    open spec fn spec_axis_clamp(self, lo: Self, hi: Self) -> Self {
        spec_clamp(self as int, lo as int, hi as int) as i64
    }

    fn axis_clamp(self, lo: Self, hi: Self) -> (r: Self) {
        clamp_value(self, lo, hi)
    }

    open spec fn wrap_ok(self, lo: Self, hi: Self) -> bool {
        fits_i64(self - lo) && fits_i64(lo - self) && fits_i64(hi - lo)
    }

    open spec fn spec_axis_wrap(self, lo: Self, hi: Self) -> Self {
        spec_wrap(self as int, lo as int, hi as int) as i64
    }

    fn axis_wrap(self, lo: Self, hi: Self) -> (r: Self) {
        wrap_value(self, lo, hi)
    }
}

impl PointUtil for Point2 {
    open spec fn spec_splat(v: int) -> Self {
        Point2 { x: v as i64, y: v as i64 }
    }

    fn splat(v: i64) -> (r: Self) {
        Point2 { x: v, y: v }
    }

    open spec fn spec_axis_max(self, o: Self) -> Self {
        Point2 { x: self.x.spec_axis_max(o.x), y: self.y.spec_axis_max(o.y) }
    }

    fn axis_max(self, o: Self) -> (r: Self) {
        Point2 { x: self.x.axis_max(o.x), y: self.y.axis_max(o.y) }
    }

    open spec fn add_ok(self, o: Self) -> bool {
        self.x.add_ok(o.x) && self.y.add_ok(o.y)
    }

    open spec fn spec_axis_add(self, o: Self) -> Self {
        Point2 { x: self.x.spec_axis_add(o.x), y: self.y.spec_axis_add(o.y) }
    }

    fn axis_add(self, o: Self) -> (r: Self) {
        Point2 { x: self.x.axis_add(o.x), y: self.y.axis_add(o.y) }
    }

    open spec fn mul_ok(self, o: Self) -> bool {
        self.x.mul_ok(o.x) && self.y.mul_ok(o.y)
    }

    open spec fn spec_axis_mul(self, o: Self) -> Self {
        Point2 { x: self.x.spec_axis_mul(o.x), y: self.y.spec_axis_mul(o.y) }
    }

    fn axis_mul(self, o: Self) -> (r: Self) {
        Point2 { x: self.x.axis_mul(o.x), y: self.y.axis_mul(o.y) }
    }

    open spec fn all_lt(self, o: Self) -> bool {
        self.x.all_lt(o.x) && self.y.all_lt(o.y)
    }

    fn check_lt(self, o: Self) -> (r: bool) {
        self.x.check_lt(o.x) && self.y.check_lt(o.y)
    }

    open spec fn spec_axis_clamp(self, lo: Self, hi: Self) -> Self {
        Point2 { x: self.x.spec_axis_clamp(lo.x, hi.x), y: self.y.spec_axis_clamp(lo.y, hi.y) }
    }

    fn axis_clamp(self, lo: Self, hi: Self) -> (r: Self) {
        Point2 { x: self.x.axis_clamp(lo.x, hi.x), y: self.y.axis_clamp(lo.y, hi.y) }
    }

    open spec fn wrap_ok(self, lo: Self, hi: Self) -> bool {
        self.x.wrap_ok(lo.x, hi.x) && self.y.wrap_ok(lo.y, hi.y)
    }

    open spec fn spec_axis_wrap(self, lo: Self, hi: Self) -> Self {
        Point2 { x: self.x.spec_axis_wrap(lo.x, hi.x), y: self.y.spec_axis_wrap(lo.y, hi.y) }
    }

    fn axis_wrap(self, lo: Self, hi: Self) -> (r: Self) {
        Point2 { x: self.x.axis_wrap(lo.x, hi.x), y: self.y.axis_wrap(lo.y, hi.y) }
    }
}

impl PointUtil for Point3 {
    open spec fn spec_splat(v: int) -> Self {
        Point3 { x: v as i64, y: v as i64, z: v as i64 }
    }

    fn splat(v: i64) -> (r: Self) {
        Point3 { x: v, y: v, z: v }
    }

    open spec fn spec_axis_max(self, o: Self) -> Self {
        Point3 { x: self.x.spec_axis_max(o.x), y: self.y.spec_axis_max(o.y), z: self.z.spec_axis_max(o.z) }
    }

    fn axis_max(self, o: Self) -> (r: Self) {
        Point3 { x: self.x.axis_max(o.x), y: self.y.axis_max(o.y), z: self.z.axis_max(o.z) }
    }

    open spec fn add_ok(self, o: Self) -> bool {
        self.x.add_ok(o.x) && self.y.add_ok(o.y) && self.z.add_ok(o.z)
    }

    open spec fn spec_axis_add(self, o: Self) -> Self {
        Point3 { x: self.x.spec_axis_add(o.x), y: self.y.spec_axis_add(o.y), z: self.z.spec_axis_add(o.z) }
    }

    fn axis_add(self, o: Self) -> (r: Self) {
        Point3 { x: self.x.axis_add(o.x), y: self.y.axis_add(o.y), z: self.z.axis_add(o.z) }
    }

    open spec fn mul_ok(self, o: Self) -> bool {
        self.x.mul_ok(o.x) && self.y.mul_ok(o.y) && self.z.mul_ok(o.z)
    }

    open spec fn spec_axis_mul(self, o: Self) -> Self {
        Point3 { x: self.x.spec_axis_mul(o.x), y: self.y.spec_axis_mul(o.y), z: self.z.spec_axis_mul(o.z) }
    }

    fn axis_mul(self, o: Self) -> (r: Self) {
        Point3 { x: self.x.axis_mul(o.x), y: self.y.axis_mul(o.y), z: self.z.axis_mul(o.z) }
    }

    open spec fn all_lt(self, o: Self) -> bool {
        self.x.all_lt(o.x) && self.y.all_lt(o.y) && self.z.all_lt(o.z)
    }

    fn check_lt(self, o: Self) -> (r: bool) {
        self.x.check_lt(o.x) && self.y.check_lt(o.y) && self.z.check_lt(o.z)
    }

    open spec fn spec_axis_clamp(self, lo: Self, hi: Self) -> Self {
        Point3 { x: self.x.spec_axis_clamp(lo.x, hi.x), y: self.y.spec_axis_clamp(lo.y, hi.y), z: self.z.spec_axis_clamp(lo.z, hi.z) }
    }

    fn axis_clamp(self, lo: Self, hi: Self) -> (r: Self) {
        Point3 { x: self.x.axis_clamp(lo.x, hi.x), y: self.y.axis_clamp(lo.y, hi.y), z: self.z.axis_clamp(lo.z, hi.z) }
    }

    open spec fn wrap_ok(self, lo: Self, hi: Self) -> bool {
        self.x.wrap_ok(lo.x, hi.x) && self.y.wrap_ok(lo.y, hi.y) && self.z.wrap_ok(lo.z, hi.z)
    }

    open spec fn spec_axis_wrap(self, lo: Self, hi: Self) -> Self {
        Point3 { x: self.x.spec_axis_wrap(lo.x, hi.x), y: self.y.spec_axis_wrap(lo.y, hi.y), z: self.z.spec_axis_wrap(lo.z, hi.z) }
    }

    fn axis_wrap(self, lo: Self, hi: Self) -> (r: Self) {
        Point3 { x: self.x.axis_wrap(lo.x, hi.x), y: self.y.axis_wrap(lo.y, hi.y), z: self.z.axis_wrap(lo.z, hi.z) }
    }
}

} // verus!
