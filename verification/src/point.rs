//! Points in three dimensions and weighted poles, componentwise over
//! single-precision bit patterns.

use vstd::prelude::*;
use crate::scalar::{
    add_bits, div_bits, mul_bits, sub_bits, sqrt_bits, sc_add, sc_div, sc_mul, sc_sub, sc_sqrt,
    ZERO_BITS,
};

verus! {

/// A point (or vector) in three dimensions; each component holds the bits
/// of a single-precision value.
#[derive(Debug, Clone, Copy, PartialEq, Eq, Structural)]
pub struct Point3 {
    pub x: u32,
    pub y: u32,
    pub z: u32,
}

/// A weighted control point.
#[derive(Debug, Clone, Copy, PartialEq, Eq, Structural)]
pub struct BSplinePole {
    pub pole: Point3,
    pub weight: u32,
}

/// The componentwise sum of two points.
pub open spec fn p_add(a: Point3, b: Point3) -> Point3 {
    Point3 { x: add_bits(a.x, b.x), y: add_bits(a.y, b.y), z: add_bits(a.z, b.z) }
}

/// The componentwise difference of two points.
pub open spec fn p_sub(a: Point3, b: Point3) -> Point3 {
    Point3 { x: sub_bits(a.x, b.x), y: sub_bits(a.y, b.y), z: sub_bits(a.z, b.z) }
}

/// A point scaled componentwise by a scalar.
pub open spec fn p_scale(s: u32, a: Point3) -> Point3 {
    Point3 { x: mul_bits(s, a.x), y: mul_bits(s, a.y), z: mul_bits(s, a.z) }
}

/// A point scaled componentwise by a scalar on the right.
pub open spec fn p_mul_sc(a: Point3, s: u32) -> Point3 {
    Point3 { x: mul_bits(a.x, s), y: mul_bits(a.y, s), z: mul_bits(a.z, s) }
}

/// A point divided componentwise by a scalar.
pub open spec fn p_div(a: Point3, s: u32) -> Point3 {
    Point3 { x: div_bits(a.x, s), y: div_bits(a.y, s), z: div_bits(a.z, s) }
}

/// The origin.
pub open spec fn p_zero() -> Point3 {
    Point3 { x: ZERO_BITS, y: ZERO_BITS, z: ZERO_BITS }
}

/// The squared Euclidean distance between two points:
/// `dx*dx + (dy*dy + dz*dz)` on the componentwise differences.
pub open spec fn p_dist_sq(a: Point3, b: Point3) -> u32 {
    let d = p_sub(a, b);
    add_bits(mul_bits(d.x, d.x), add_bits(mul_bits(d.y, d.y), mul_bits(d.z, d.z)))
}

/// The Euclidean distance between two points: the library's square root of
/// the squared distance.
pub open spec fn p_dist(a: Point3, b: Point3) -> u32 {
    sqrt_bits(p_dist_sq(a, b))
}

impl Point3 {
    /// The origin.
    pub fn zero() -> (r: Point3)
        ensures
            r == p_zero(),
    {
        Point3 { x: ZERO_BITS, y: ZERO_BITS, z: ZERO_BITS }
    }

    /// The componentwise sum.
    pub fn add(self, o: Point3) -> (r: Point3)
        ensures
            r == p_add(self, o),
    {
        Point3 { x: sc_add(self.x, o.x), y: sc_add(self.y, o.y), z: sc_add(self.z, o.z) }
    }

    /// The componentwise difference.
    pub fn sub(self, o: Point3) -> (r: Point3)
        ensures
            r == p_sub(self, o),
    {
        Point3 { x: sc_sub(self.x, o.x), y: sc_sub(self.y, o.y), z: sc_sub(self.z, o.z) }
    }

    /// This point scaled by a scalar.
    pub fn scale(self, s: u32) -> (r: Point3)
        ensures
            r == p_scale(s, self),
    {
        Point3 { x: sc_mul(s, self.x), y: sc_mul(s, self.y), z: sc_mul(s, self.z) }
    }

    /// This point scaled by a scalar on the right.
    pub fn mul_sc(self, s: u32) -> (r: Point3)
        ensures
            r == p_mul_sc(self, s),
    {
        Point3 { x: sc_mul(self.x, s), y: sc_mul(self.y, s), z: sc_mul(self.z, s) }
    }

    /// This point divided by a scalar.
    pub fn div(self, s: u32) -> (r: Point3)
        ensures
            r == p_div(self, s),
    {
        Point3 { x: sc_div(self.x, s), y: sc_div(self.y, s), z: sc_div(self.z, s) }
    }

    /// The Euclidean distance to another point.
    pub fn distance(self, o: Point3) -> (r: u32)
        ensures
            r == p_dist(self, o),
    {
        let d = self.sub(o);
        let sq = sc_add(sc_mul(d.x, d.x), sc_add(sc_mul(d.y, d.y), sc_mul(d.z, d.z)));
        sc_sqrt(sq)
    }
}

} // verus!
