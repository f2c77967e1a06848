//! Small fixed-point vectors.
//!
//! Two- and three-component vectors over [`Fixed`], with exactly the linear
//! algebra the node templates need: componentwise sum and difference, scaling
//! by a scalar, and the three-dimensional dot and cross products.

use vstd::prelude::*;

use crate::fixed::{spec_add, spec_mul, spec_sub, Fixed};

verus! {

#[derive(Clone, Copy, PartialEq, Eq, Structural, Debug)]
pub struct Vector2 {
    pub x: Fixed,
    pub y: Fixed,
}

#[derive(Clone, Copy, PartialEq, Eq, Structural, Debug)]
pub struct Vector3 {
    pub x: Fixed,
    pub y: Fixed,
    pub z: Fixed,
}

/// The value of a three-component dot product, in units: the saturating sum
/// of the three saturating component products, folded left to right.
pub open spec fn spec_dot(x1: int, y1: int, z1: int, x2: int, y2: int, z2: int) -> int {
    spec_add(spec_add(spec_mul(x1, x2), spec_mul(y1, y2)), spec_mul(z1, z2))
}

impl Vector2 {
    pub fn new(x: Fixed, y: Fixed) -> (r: Vector2)
        ensures
            r == (Vector2 { x, y }),
    {
        Vector2 { x, y }
    }

    pub fn zero() -> (r: Vector2)
        ensures
            r.x.units == 0,
            r.y.units == 0,
    {
        Vector2 { x: Fixed::zero(), y: Fixed::zero() }
    }

    /// Componentwise saturating sum.
    pub fn add(self, other: Vector2) -> (r: Vector2)
        ensures
            r.x.units as int == spec_add(self.x.units as int, other.x.units as int),
            r.y.units as int == spec_add(self.y.units as int, other.y.units as int),
    {
        Vector2 { x: self.x.add(other.x), y: self.y.add(other.y) }
    }

    /// Componentwise saturating difference.
    pub fn sub(self, other: Vector2) -> (r: Vector2)
        ensures
            r.x.units as int == spec_sub(self.x.units as int, other.x.units as int),
            r.y.units as int == spec_sub(self.y.units as int, other.y.units as int),
    {
        Vector2 { x: self.x.sub(other.x), y: self.y.sub(other.y) }
    }

    /// Componentwise scaling by a scalar.
    pub fn scale(self, s: Fixed) -> (r: Vector2)
        ensures
            r.x.units as int == spec_mul(self.x.units as int, s.units as int),
            r.y.units as int == spec_mul(self.y.units as int, s.units as int),
    {
        Vector2 { x: self.x.mul(s), y: self.y.mul(s) }
    }
}

impl Vector3 {
    pub fn new(x: Fixed, y: Fixed, z: Fixed) -> (r: Vector3)
        ensures
            r == (Vector3 { x, y, z }),
    {
        Vector3 { x, y, z }
    }

    pub fn zero() -> (r: Vector3)
        ensures
            r.x.units == 0,
            r.y.units == 0,
            r.z.units == 0,
    {
        Vector3 { x: Fixed::zero(), y: Fixed::zero(), z: Fixed::zero() }
    }

    /// Componentwise saturating sum.
    pub fn add(self, other: Vector3) -> (r: Vector3)
        ensures
            r.x.units as int == spec_add(self.x.units as int, other.x.units as int),
            r.y.units as int == spec_add(self.y.units as int, other.y.units as int),
            r.z.units as int == spec_add(self.z.units as int, other.z.units as int),
    {
        Vector3 { x: self.x.add(other.x), y: self.y.add(other.y), z: self.z.add(other.z) }
    }

    /// Componentwise saturating difference.
    pub fn sub(self, other: Vector3) -> (r: Vector3)
        ensures
            r.x.units as int == spec_sub(self.x.units as int, other.x.units as int),
            r.y.units as int == spec_sub(self.y.units as int, other.y.units as int),
            r.z.units as int == spec_sub(self.z.units as int, other.z.units as int),
    {
        Vector3 { x: self.x.sub(other.x), y: self.y.sub(other.y), z: self.z.sub(other.z) }
    }

    /// Componentwise scaling by a scalar.
    pub fn scale(self, s: Fixed) -> (r: Vector3)
        ensures
            r.x.units as int == spec_mul(self.x.units as int, s.units as int),
            r.y.units as int == spec_mul(self.y.units as int, s.units as int),
            r.z.units as int == spec_mul(self.z.units as int, s.units as int),
    {
        Vector3 { x: self.x.mul(s), y: self.y.mul(s), z: self.z.mul(s) }
    }

    /// Dot product.
    pub fn dot(&self, other: &Vector3) -> (r: Fixed)
        ensures
            r.units as int == spec_dot(
                self.x.units as int,
                self.y.units as int,
                self.z.units as int,
                other.x.units as int,
                other.y.units as int,
                other.z.units as int,
            ),
    {
        self.x.mul(other.x).add(self.y.mul(other.y)).add(self.z.mul(other.z))
    }

    /// Cross product, component by component.
    pub fn cross(&self, other: &Vector3) -> (r: Vector3)
        ensures
            r.x.units as int == spec_sub(
                spec_mul(self.y.units as int, other.z.units as int),
                spec_mul(self.z.units as int, other.y.units as int),
            ),
            r.y.units as int == spec_sub(
                spec_mul(self.z.units as int, other.x.units as int),
                spec_mul(self.x.units as int, other.z.units as int),
            ),
            r.z.units as int == spec_sub(
                spec_mul(self.x.units as int, other.y.units as int),
                spec_mul(self.y.units as int, other.x.units as int),
            ),
    {
        Vector3 {
            x: self.y.mul(other.z).sub(self.z.mul(other.y)),
            y: self.z.mul(other.x).sub(self.x.mul(other.z)),
            z: self.x.mul(other.y).sub(self.y.mul(other.x)),
        }
    }
}

} // verus!
