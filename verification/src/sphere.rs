//! Spheres.

use crate::hittable::{lemma_normal_faces_ray, HitInfo, Hittable};
use crate::material::AnyMaterial;
use crate::ray::Ray;
use crate::scalar::{
    is_int_sqrt, lemma_div_monotonic, lemma_int_sqrt_unique, lemma_sqrt_nonnegative, Scalar,
};
use crate::vec3::{lemma_length2_nonnegative, Point3, Vec3};
use std::ops::Neg;
use vstd::prelude::*;

verus! {

/// A sphere with a material. A negative radius turns the surface inside
/// out; a sphere of radius zero is a point and is never hit.
#[derive(Clone, Copy, PartialEq, Eq, Structural, Debug)]
pub struct Sphere {
    pub center: Point3,
    pub radius: Scalar,
    pub material: AnyMaterial,
}

/// Whether `t` lies in the window `[t_min, t_max]`.
pub open spec fn in_window(t: Scalar, t_min: Scalar, t_max: Scalar) -> bool {
    t_min@ <= t@ <= t_max@
}

impl Sphere {
    /// From the centre to the ray's origin.
    pub open spec fn spec_oc(self, ray: Ray) -> Vec3 {
        ray.orig.spec_sub(self.center)
    }

    /// Half the linear coefficient of the quadratic `|P(t) - center|^2 =
    /// radius^2`.
    pub open spec fn spec_h(self, ray: Ray) -> Scalar {
        self.spec_oc(ray).spec_dot(ray.dir)
    }

    /// The constant coefficient of the quadratic.
    pub open spec fn spec_c(self, ray: Ray) -> Scalar {
        self.spec_oc(ray).spec_length2().spec_sub(self.radius.spec_mul(self.radius))
    }

    /// The quarter discriminant `h^2 - a c`, with `a` the squared length of
    /// the direction.
    pub open spec fn spec_disc(self, ray: Ray) -> Scalar {
        let h = self.spec_h(ray);
        h.spec_mul(h).spec_sub(ray.dir.spec_length2().spec_mul(self.spec_c(ray)))
    }

    /// The smaller root `(-h - sqrt(disc)) / a`.
    pub open spec fn spec_near_root(self, ray: Ray) -> Scalar {
        self.spec_h(ray).spec_neg().spec_sub(self.spec_disc(ray).spec_sqrt()).spec_div(
            ray.dir.spec_length2(),
        )
    }

    /// The larger root `(-h + sqrt(disc)) / a`.
    pub open spec fn spec_far_root(self, ray: Ray) -> Scalar {
        self.spec_h(ray).spec_neg().spec_add(self.spec_disc(ray).spec_sqrt()).spec_div(
            ray.dir.spec_length2(),
        )
    }

    /// Whether the line of the ray has no point on the sphere: the
    /// discriminant is negative, or the ray has no direction, or the sphere
    /// no extent.
    pub open spec fn spec_misses(self, ray: Ray) -> bool {
        self.spec_disc(ray)@ < 0 || ray.dir.spec_length2()@ == 0 || self.radius@ == 0
    }

    /// The record of the hit at parameter `t`: the point on the ray, and the
    /// outward normal `(point - center) / radius` turned against the ray.
    pub open spec fn spec_hit_at(self, ray: Ray, t: Scalar) -> HitInfo {
        let p = ray.spec_at(t);
        HitInfo::spec_new(ray, p, p.spec_sub(self.center).spec_shrink(self.radius), t, self.material)
    }

    /// The sphere at `cen` with radius `r` and material `mat`.
    pub fn new(cen: Point3, r: Scalar, mat: AnyMaterial) -> (s: Sphere)
        ensures
            s == (Sphere { center: cen, radius: r, material: mat }),
    {
        Sphere { center: cen, radius: r, material: mat }
    }
}

/// Where the line of the ray meets the sphere, the smaller root is not
/// above the larger one.
pub proof fn lemma_roots_ordered(s: Sphere, ray: Ray)
    requires
        !s.spec_misses(ray),
    ensures
        s.spec_near_root(ray)@ <= s.spec_far_root(ray)@,
{
    let a = ray.dir.spec_length2();
    lemma_length2_nonnegative(ray.dir);
    let root = s.spec_disc(ray).spec_sqrt();
    let back = s.spec_h(ray).spec_neg();
    lemma_sqrt_nonnegative(s.spec_disc(ray));
    lemma_div_monotonic(back.spec_sub(root), back.spec_add(root), a);
}

/// A tangent ray meets the sphere once: where the discriminant is zero,
/// the two roots are one, so that the ray hits exactly when that root lies
/// in the window.
pub proof fn lemma_tangent_hits_once(s: Sphere, ray: Ray, t_min: Scalar, t_max: Scalar)
    requires
        s.spec_disc(ray)@ == 0,
        ray.dir.spec_length2()@ != 0,
        s.radius@ != 0,
    ensures
        s.spec_near_root(ray) == s.spec_far_root(ray),
        s.spec_hit(ray, t_min, t_max) is Some <==> in_window(s.spec_near_root(ray), t_min, t_max),
{
    assert(is_int_sqrt(0, 0));
    lemma_int_sqrt_unique(0, 0);
    assert(s.spec_disc(ray).spec_sqrt()@ == 0);
}

impl Hittable for Sphere {
    /// The smaller root if it lies in the window, else the larger root if
    /// that one does, else nothing.
    open spec fn spec_hit(&self, ray: Ray, t_min: Scalar, t_max: Scalar) -> Option<HitInfo> {
        if self.spec_misses(ray) {
            None
        } else if in_window(self.spec_near_root(ray), t_min, t_max) {
            Some(self.spec_hit_at(ray, self.spec_near_root(ray)))
        } else if in_window(self.spec_far_root(ray), t_min, t_max) {
            Some(self.spec_hit_at(ray, self.spec_far_root(ray)))
        } else {
            None
        }
    }

    proof fn lemma_hit_in_window(&self, ray: Ray, t_min: Scalar, t_max: Scalar) {
    }

    proof fn lemma_hit_faces_ray(&self, ray: Ray, t_min: Scalar, t_max: Scalar) {
        if let Some(info) = self.spec_hit(ray, t_min, t_max) {
            let p = ray.spec_at(info.t);
            lemma_normal_faces_ray(
                ray,
                p,
                p.spec_sub(self.center).spec_shrink(self.radius),
                info.t,
                self.material,
            );
        }
    }

    proof fn lemma_hit_narrowed(&self, ray: Ray, t_min: Scalar, t_mid: Scalar, t_max: Scalar) {
        if !self.spec_misses(ray) {
            lemma_roots_ordered(*self, ray);
        }
    }

    fn hit(&self, ray: &Ray, t_min: Scalar, t_max: Scalar) -> (res: Option<HitInfo>) {
        let orig_center = ray.orig - self.center;

        let a = ray.dir.length2();
        let h = orig_center.dot(ray.dir);
        let c = orig_center.length2() - self.radius * self.radius;

        let disc = h * h - a * c;

        if disc.lt(Scalar::zero()) || a.is_zero() || self.radius.is_zero() {
            return None;
        }
        let root = disc.sqrt();
        let mut t = (h.neg() - root) / a;

        if t.lt(t_min) || t.gt(t_max) {
            t = (h.neg() + root) / a;

            if t.lt(t_min) || t.gt(t_max) {
                return None;
            }
        }
        let p = ray.at(t);
        let outward_normal = (p - self.center) / self.radius;
        let info = HitInfo::new(ray, p, outward_normal, t, self.material);

        Some(info)
    }
}

} // verus!
