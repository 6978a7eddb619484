//! Rays: an origin point and a direction vector.

use vstd::prelude::*;

use crate::fixed::Fixed;
use crate::vector::Vector3;
use crate::vector::add_vec;
use crate::vector::scale_vec;

verus! {

/// A ray, immutable once built. The direction need not be unit length.
#[derive(Clone, Copy, Debug, PartialEq, Eq, Structural)]
pub struct Ray {
    pub origin: Vector3,
    pub direction: Vector3,
}

/// The point the ray reaches at parameter `t`: `origin + direction * t`.
pub open spec fn point_at(ray: Ray, t: int) -> Vector3 {
    add_vec(ray.origin, scale_vec(ray.direction, t))
}

impl Ray {
    /// Builds a ray from an origin and a direction.
    pub fn new(origin: Vector3, direction: Vector3) -> (r: Self)
        ensures
            r == (Ray { origin, direction }),
    {
        Ray { origin, direction }
    }

    /// The point the ray reaches at parameter `t`.
    pub fn point_at_time(&self, t: Fixed) -> (r: Vector3)
        ensures
            r == point_at(*self, t as int),
    {
        self.origin.plus(&self.direction.scaled(t))
    }

    /// The ray's origin.
    pub fn origin(&self) -> (r: &Vector3)
        ensures
            *r == self.origin,
    {
        &self.origin
    }

    /// The ray's direction.
    pub fn direction(&self) -> (r: &Vector3)
        ensures
            *r == self.direction,
    {
        &self.direction
    }
}

} // verus!
