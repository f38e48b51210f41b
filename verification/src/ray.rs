//! Rays: an origin and a direction.

use crate::scalar::Scalar;
use crate::vec3::{Point3, Vec3};
use vstd::prelude::*;

verus! {

/// The line `orig + t * dir`. The direction need not have unit length.
#[derive(Clone, Copy, PartialEq, Eq, Structural, Debug)]
pub struct Ray {
    pub orig: Point3,
    pub dir: Vec3,
}

impl Ray {
    /// The point at parameter `t`: `orig + t * dir`.
    pub open spec fn spec_at(self, t: Scalar) -> Point3 {
        self.orig.spec_add(self.dir.spec_scale(t))
    }

    /// The ray from `orig` along `dir`.
    pub fn new(orig: Point3, dir: Vec3) -> (r: Ray)
        ensures
            r == (Ray { orig, dir }),
    {
        Ray { orig, dir }
    }

    /// The origin.
    pub fn origin(&self) -> (p: Point3)
        ensures
            p == self.orig,
    {
        self.orig
    }

    /// The direction.
    pub fn direction(&self) -> (d: Vec3)
        ensures
            d == self.dir,
    {
        self.dir
    }

    /// The point at parameter `t`; any `t` is a valid place on the line.
    pub fn at(&self, t: Scalar) -> (p: Point3)
        ensures
            p == self.spec_at(t),
    {
        self.orig + t * self.dir
    }
}

} // verus!
