//! The camera: from image-plane coordinates to rays.

use crate::ray::Ray;
use crate::scalar::{Scalar, ONE};
use crate::utils::{in_unit_disk, random_point_in_disk};
use crate::vec3::{Point3, Vec3};
use vstd::prelude::*;

verus! {

/// A thin-lens camera: the viewport at the focus distance, an orthonormal
/// frame `u`, `v`, `w`, and the radius of the lens. Derived once from the
/// viewing parameters.
#[derive(Clone, Copy, PartialEq, Eq, Structural, Debug)]
pub struct Camera {
    pub origin: Point3,
    pub lower_left_corner: Point3,
    pub vertical: Vec3,
    pub horizontal: Vec3,
    pub u: Vec3,
    pub v: Vec3,
    pub w: Vec3,
    pub lens_radius: Scalar,
}

impl Camera {
    /// The viewing direction reversed, before normalisation.
    pub open spec fn spec_back(lookfrom: Point3, lookat: Point3) -> Vec3 {
        lookfrom.spec_sub(lookat)
    }

    /// The camera's right-hand direction, before normalisation.
    pub open spec fn spec_side(lookfrom: Point3, lookat: Point3, vup: Vec3) -> Vec3 {
        vup.spec_cross(Camera::spec_back(lookfrom, lookat).spec_unit())
    }

    /// Whether the viewing parameters fix a frame: the camera does not look
    /// at its own position, and not along `vup`.
    pub open spec fn spec_has_frame(lookfrom: Point3, lookat: Point3, vup: Vec3) -> bool {
        !Camera::spec_back(lookfrom, lookat).spec_is_zero() && !Camera::spec_side(
            lookfrom,
            lookat,
            vup,
        ).spec_is_zero()
    }

    /// The camera for the given viewing parameters:
    /// `w = unit(lookfrom - lookat)`, `u = unit(vup x w)`, `v = w x u`; the
    /// viewport is `2 tan_half_fov` high and `aspect_ratio` times as wide,
    /// scaled to the focus distance and centred `focus_dist` in front of
    /// the origin; the lens radius is half the aperture.
    pub open spec fn spec_new(
        lookfrom: Point3,
        lookat: Point3,
        vup: Vec3,
        tan_half_fov: Scalar,
        aspect_ratio: Scalar,
        aperture: Scalar,
        focus_dist: Scalar,
    ) -> Camera {
        let two = Scalar::of(2 * ONE);
        let viewport_height = two.spec_mul(tan_half_fov);
        let viewport_width = viewport_height.spec_mul(aspect_ratio);
        let w = Camera::spec_back(lookfrom, lookat).spec_unit();
        let u = vup.spec_cross(w).spec_unit();
        let v = w.spec_cross(u);
        let horizontal = u.spec_scale(focus_dist.spec_mul(viewport_width));
        let vertical = v.spec_scale(focus_dist.spec_mul(viewport_height));
        Camera {
            origin: lookfrom,
            lower_left_corner: lookfrom.spec_sub(horizontal.spec_shrink(two)).spec_sub(
                vertical.spec_shrink(two),
            ).spec_sub(w.spec_scale(focus_dist)),
            vertical,
            horizontal,
            u,
            v,
            w,
            lens_radius: aperture.spec_div(two),
        }
    }

    /// The ray for image-plane coordinates `(s, t)` through the lens point
    /// `lens_radius * p`: it starts at the origin offset by that point in
    /// the `u`, `v` plane and aims at the viewport point
    /// `lower_left_corner + s horizontal + t vertical`.
    pub open spec fn spec_get_ray_with(self, s: Scalar, t: Scalar, p: Vec3) -> Ray {
        let rd = p.spec_scale(self.lens_radius);
        let offset = self.u.spec_scale(rd.x).spec_add(self.v.spec_scale(rd.y));
        Ray {
            orig: self.origin.spec_add(offset),
            dir: self.lower_left_corner.spec_add(self.horizontal.spec_scale(s)).spec_add(
                self.vertical.spec_scale(t),
            ).spec_sub(self.origin).spec_sub(offset),
        }
    }

    /// Builds the camera. `tan_half_fov` is the tangent of half the
    /// vertical field of view. The viewing parameters must fix a frame.
    pub fn new(
        lookfrom: Point3,
        lookat: Point3,
        vup: Vec3,
        tan_half_fov: Scalar,
        aspect_ratio: Scalar,
        aperture: Scalar,
        focus_dist: Scalar,
    ) -> (cam: Camera)
        requires
            Camera::spec_has_frame(lookfrom, lookat, vup),
        ensures
            cam == Camera::spec_new(
                lookfrom,
                lookat,
                vup,
                tan_half_fov,
                aspect_ratio,
                aperture,
                focus_dist,
            ),
    {
        let two = Scalar::from_int(2);
        let viewport_height = two * tan_half_fov;
        let viewport_width = viewport_height * aspect_ratio;

        let w = (lookfrom - lookat).unit();
        let u = vup.cross(w).unit();
        let v = w.cross(u);

        let lens_radius = aperture / two;

        let origin = lookfrom;
        let horizontal = focus_dist * viewport_width * u;
        let vertical = focus_dist * viewport_height * v;
        let lower_left_corner = origin - horizontal / two - vertical / two - focus_dist * w;

        Camera { origin, horizontal, vertical, lower_left_corner, w, u, v, lens_radius }
    }

    /// Whether `new` accepts the viewing parameters.
    pub fn has_frame(lookfrom: Point3, lookat: Point3, vup: Vec3) -> (b: bool)
        ensures
            b == Camera::spec_has_frame(lookfrom, lookat, vup),
    {
        let back = lookfrom - lookat;
        if back.is_zero() {
            false
        } else {
            !vup.cross(back.unit()).is_zero()
        }
    }

    /// The ray for `(s, t)` with the random point `p` of the unit disk
    /// given.
    pub fn get_ray_with(&self, s: Scalar, t: Scalar, p: Vec3) -> (r: Ray)
        ensures
            r == self.spec_get_ray_with(s, t, p),
    {
        let rd = self.lens_radius * p;
        let offset = self.u * rd.x + self.v * rd.y;
        Ray {
            orig: self.origin + offset,
            dir: self.lower_left_corner + s * self.horizontal + t * self.vertical - self.origin
                - offset,
        }
    }

    /// The ray for `(s, t)` through a random point of the lens.
    pub fn get_ray(&self, s: Scalar, t: Scalar) -> (r: Ray)
        ensures
            exists|p: Vec3| in_unit_disk(p) && r == #[trigger] self.spec_get_ray_with(s, t, p),
    {
        let p = random_point_in_disk();
        self.get_ray_with(s, t, p)
    }
}

} // verus!
