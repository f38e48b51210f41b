//! Hit records, the surface contract, and lists of surfaces.

use crate::material::AnyMaterial;
use crate::ray::Ray;
use crate::scalar::Scalar;
use crate::vec3::{lemma_dot_neg, Point3, Vec3};
use std::ops::Neg;
use vstd::prelude::*;

verus! {

/// Where and how a ray met a surface.
///
/// `normal` faces the incoming ray; `front_face` tells whether the ray met
/// the outer side of the surface.
#[derive(Clone, Copy, PartialEq, Eq, Structural, Debug)]
pub struct HitInfo {
    pub p: Point3,
    pub normal: Vec3,
    pub t: Scalar,
    pub front_face: bool,
    pub material: AnyMaterial,
}

impl HitInfo {
    /// The record of a hit at `p` with the geometric normal
    /// `outward_normal`: the ray meets the front face exactly when its
    /// direction has a negative dot product with the outward normal, and the
    /// stored normal is the outward normal, negated on a back-face hit.
    pub open spec fn spec_new(
        r: Ray,
        p: Vec3,
        outward_normal: Vec3,
        t: Scalar,
        hit_material: AnyMaterial,
    ) -> HitInfo {
        let front_face = r.dir.spec_dot(outward_normal)@ < 0;
        HitInfo {
            p,
            normal: if front_face {
                outward_normal
            } else {
                outward_normal.spec_neg()
            },
            t,
            front_face,
            material: hit_material,
        }
    }

    /// Builds a hit record, turning the normal against the ray. The stored
    /// normal never points along the ray.
    pub fn new(r: &Ray, p: Vec3, outward_normal: Vec3, t: Scalar, hit_material: AnyMaterial) -> (info:
        HitInfo)
        ensures
            info == HitInfo::spec_new(*r, p, outward_normal, t, hit_material),
            info.front_face <==> r.dir.spec_dot(outward_normal)@ < 0,
            r.dir.spec_dot(info.normal)@ <= 0,
    {
        let front_face = r.direction().dot(outward_normal).lt(Scalar::zero());
        proof {
            lemma_normal_faces_ray(*r, p, outward_normal, t, hit_material);
        }
        let normal = if front_face {
            outward_normal
        } else {
            outward_normal.neg()
        };
        HitInfo { p, normal, t, front_face, material: hit_material }
    }
}

/// The front face is met exactly when the ray runs against the outward
/// normal, and the stored normal never points along the ray.
pub proof fn lemma_normal_faces_ray(
    r: Ray,
    p: Vec3,
    outward_normal: Vec3,
    t: Scalar,
    hit_material: AnyMaterial,
)
    ensures
        HitInfo::spec_new(r, p, outward_normal, t, hit_material).front_face <==> r.dir.spec_dot(
            outward_normal,
        )@ < 0,
        r.dir.spec_dot(HitInfo::spec_new(r, p, outward_normal, t, hit_material).normal)@ <= 0,
{
    lemma_dot_neg(r.dir, outward_normal);
}

/// A surface that a ray can hit.
pub trait Hittable {
    /// The hit of `ray` on this surface with parameter in `[t_min, t_max]`,
    /// if there is one.
    spec fn spec_hit(&self, ray: Ray, t_min: Scalar, t_max: Scalar) -> Option<HitInfo>;

    /// A hit lies in the window it was asked for.
    proof fn lemma_hit_in_window(&self, ray: Ray, t_min: Scalar, t_max: Scalar)
        ensures
            self.spec_hit(ray, t_min, t_max) matches Some(info) ==> t_min@ <= info.t@ <= t_max@,
    ;

    /// The normal of a hit is turned against the ray.
    proof fn lemma_hit_faces_ray(&self, ray: Ray, t_min: Scalar, t_max: Scalar)
        ensures
            self.spec_hit(ray, t_min, t_max) matches Some(info) ==> ray.dir.spec_dot(info.normal)@
                <= 0,
    ;

    /// Lowering the upper end of the window keeps the hit where it still
    /// lies in the window, and brings no other hit.
    proof fn lemma_hit_narrowed(&self, ray: Ray, t_min: Scalar, t_mid: Scalar, t_max: Scalar)
        requires
            t_mid@ <= t_max@,
        ensures
            self.spec_hit(ray, t_min, t_mid) == narrowed(self.spec_hit(ray, t_min, t_max), t_mid),
    ;

    /// Tests `ray` against the surface within `[t_min, t_max]`.
    fn hit(&self, ray: &Ray, t_min: Scalar, t_max: Scalar) -> (res: Option<HitInfo>)
        ensures
            res == self.spec_hit(*ray, t_min, t_max),
            res matches Some(info) ==> t_min@ <= info.t@ <= t_max@ && ray.dir.spec_dot(
                info.normal,
            )@ <= 0,
    ;
}

/// What is left of `hit` when the window ends at `t_mid`: the hit itself
/// where it lies at or before `t_mid`.
pub open spec fn narrowed(hit: Option<HitInfo>, t_mid: Scalar) -> Option<HitInfo> {
    match hit {
        Some(info) => if info.t@ <= t_mid@ {
            Some(info)
        } else {
            None
        },
        None => None,
    }
}

/// The hit that a scan of the first `n` surfaces of `objects` ends with:
/// each surface in turn is tested against the window that the closest hit
/// so far leaves open, and a surface that hits replaces it.
pub open spec fn scan_hit<T: Hittable>(
    objects: Seq<T>,
    n: nat,
    ray: Ray,
    t_min: Scalar,
    t_max: Scalar,
) -> Option<HitInfo>
    decreases n,
{
    if n == 0 || n > objects.len() {
        None
    } else {
        let before = scan_hit(objects, (n - 1) as nat, ray, t_min, t_max);
        match objects[n - 1].spec_hit(ray, t_min, closest_so_far(before, t_max)) {
            Some(info) => Some(info),
            None => before,
        }
    }
}

/// The upper end of the window after a scan that found `best`.
pub open spec fn closest_so_far(best: Option<HitInfo>, t_max: Scalar) -> Scalar {
    match best {
        Some(info) => info.t,
        None => t_max,
    }
}

/// An ordered collection of surfaces, itself a surface.
pub struct HittableList<T: Hittable> {
    pub objects: Vec<T>,
}

impl<T: Hittable> HittableList<T> {
    /// The empty list.
    pub fn new() -> (list: HittableList<T>)
        ensures
            list.objects@ == Seq::<T>::empty(),
    {
        HittableList { objects: Vec::new() }
    }

    /// Appends a surface.
    pub fn add(&mut self, obj: T)
        ensures
            final(self).objects@ == old(self).objects@.push(obj),
    {
        self.objects.push(obj);
    }
}

/// A hit that a scan ends with lies in the window.
pub proof fn lemma_scan_in_window<T: Hittable>(
    objects: Seq<T>,
    n: nat,
    ray: Ray,
    t_min: Scalar,
    t_max: Scalar,
)
    ensures
        scan_hit(objects, n, ray, t_min, t_max) matches Some(info) ==> t_min@ <= info.t@
            <= t_max@,
    decreases n,
{
    if n == 0 || n > objects.len() {
    } else {
        let before = scan_hit(objects, (n - 1) as nat, ray, t_min, t_max);
        lemma_scan_in_window(objects, (n - 1) as nat, ray, t_min, t_max);
        objects[n - 1].lemma_hit_in_window(ray, t_min, closest_so_far(before, t_max));
    }
}

/// The normal of a hit that a scan ends with is turned against the ray.
pub proof fn lemma_scan_faces_ray<T: Hittable>(
    objects: Seq<T>,
    n: nat,
    ray: Ray,
    t_min: Scalar,
    t_max: Scalar,
)
    ensures
        scan_hit(objects, n, ray, t_min, t_max) matches Some(info) ==> ray.dir.spec_dot(
            info.normal,
        )@ <= 0,
    decreases n,
{
    if n == 0 || n > objects.len() {
    } else {
        let before = scan_hit(objects, (n - 1) as nat, ray, t_min, t_max);
        lemma_scan_faces_ray(objects, (n - 1) as nat, ray, t_min, t_max);
        objects[n - 1].lemma_hit_faces_ray(ray, t_min, closest_so_far(before, t_max));
    }
}

/// A scan with a lower upper end of the window ends with what is left of
/// the hit of the scan with the higher one.
pub proof fn lemma_scan_narrowed<T: Hittable>(
    objects: Seq<T>,
    n: nat,
    ray: Ray,
    t_min: Scalar,
    t_mid: Scalar,
    t_max: Scalar,
)
    requires
        t_mid@ <= t_max@,
    ensures
        scan_hit(objects, n, ray, t_min, t_mid) == narrowed(
            scan_hit(objects, n, ray, t_min, t_max),
            t_mid,
        ),
    decreases n,
{
    if n == 0 || n > objects.len() {
    } else {
        let m = (n - 1) as nat;
        let wide = scan_hit(objects, m, ray, t_min, t_max);
        let tight = scan_hit(objects, m, ray, t_min, t_mid);
        lemma_scan_narrowed(objects, m, ray, t_min, t_mid, t_max);
        lemma_scan_in_window(objects, m, ray, t_min, t_max);
        let wide_end = closest_so_far(wide, t_max);
        let tight_end = closest_so_far(tight, t_mid);
        objects[m as int].lemma_hit_in_window(ray, t_min, wide_end);
        objects[m as int].lemma_hit_in_window(ray, t_min, tight_end);
        if tight_end@ <= wide_end@ {
            objects[m as int].lemma_hit_narrowed(ray, t_min, tight_end, wide_end);
        }
    }
}

/// The scan ends with the nearest hit: the hit of one of the surfaces in
/// the whole window, and no surface has a hit in the window that lies
/// before it. Where the scan ends without a hit, no surface has one.
pub proof fn lemma_scan_is_nearest<T: Hittable>(
    objects: Seq<T>,
    n: nat,
    ray: Ray,
    t_min: Scalar,
    t_max: Scalar,
)
    requires
        n <= objects.len(),
    ensures
        scan_hit(objects, n, ray, t_min, t_max) matches Some(best) ==> exists|k: int|
            0 <= k < n && #[trigger] objects[k].spec_hit(ray, t_min, t_max) == Some(best),
        forall|k: int|
            0 <= k < n ==> (#[trigger] objects[k].spec_hit(ray, t_min, t_max) matches Some(info)
                ==> scan_hit(objects, n, ray, t_min, t_max) matches Some(best) && best.t@
                <= info.t@),
    decreases n,
{
    if n == 0 {
    } else {
        let m = (n - 1) as nat;
        let before = scan_hit(objects, m, ray, t_min, t_max);
        let end = closest_so_far(before, t_max);
        lemma_scan_is_nearest(objects, m, ray, t_min, t_max);
        lemma_scan_in_window(objects, m, ray, t_min, t_max);
        objects[m as int].lemma_hit_narrowed(ray, t_min, end, t_max);
        objects[m as int].lemma_hit_in_window(ray, t_min, t_max);
        let now = scan_hit(objects, n, ray, t_min, t_max);
        match objects[m as int].spec_hit(ray, t_min, end) {
            Some(info) => {
                assert(objects[m as int].spec_hit(ray, t_min, t_max) == Some(info));
            },
            None => {
                if before is Some {
                    let k = choose|k: int|
                        0 <= k < m && #[trigger] objects[k].spec_hit(ray, t_min, t_max) == before;
                    assert(objects[k].spec_hit(ray, t_min, t_max) == now);
                }
            },
        }
        assert forall|k: int|
            0 <= k < n && (#[trigger] objects[k].spec_hit(ray, t_min, t_max) is Some) implies (now
            matches Some(best) && best.t@ <= objects[k].spec_hit(ray, t_min, t_max).unwrap().t@) by {
            if k < m {
                assert(before is Some);
            }
        }
    }
}

/// A list is hit at the nearest hit of its surfaces: the hit of the list
/// is the hit of one of them, no surface is hit before it, and a list
/// without a hit holds no surface that is hit.
pub proof fn lemma_list_hit_is_nearest<T: Hittable>(
    world: HittableList<T>,
    ray: Ray,
    t_min: Scalar,
    t_max: Scalar,
)
    ensures
        world.spec_hit(ray, t_min, t_max) matches Some(best) ==> exists|k: int|
            0 <= k < world.objects@.len() && #[trigger] world.objects@[k].spec_hit(
                ray,
                t_min,
                t_max,
            ) == Some(best),
        forall|k: int|
            0 <= k < world.objects@.len() ==> (#[trigger] world.objects@[k].spec_hit(
                ray,
                t_min,
                t_max,
            ) matches Some(info) ==> world.spec_hit(ray, t_min, t_max) matches Some(best)
                && best.t@ <= info.t@),
{
    lemma_scan_is_nearest(world.objects@, world.objects@.len(), ray, t_min, t_max);
}

impl<T: Hittable> Hittable for HittableList<T> {
    open spec fn spec_hit(&self, ray: Ray, t_min: Scalar, t_max: Scalar) -> Option<HitInfo> {
        scan_hit(self.objects@, self.objects@.len(), ray, t_min, t_max)
    }

    proof fn lemma_hit_in_window(&self, ray: Ray, t_min: Scalar, t_max: Scalar) {
        lemma_scan_in_window(self.objects@, self.objects@.len(), ray, t_min, t_max);
    }

    proof fn lemma_hit_faces_ray(&self, ray: Ray, t_min: Scalar, t_max: Scalar) {
        lemma_scan_faces_ray(self.objects@, self.objects@.len(), ray, t_min, t_max);
    }

    proof fn lemma_hit_narrowed(&self, ray: Ray, t_min: Scalar, t_mid: Scalar, t_max: Scalar) {
        lemma_scan_narrowed(self.objects@, self.objects@.len(), ray, t_min, t_mid, t_max);
    }

    fn hit(&self, ray: &Ray, t_min: Scalar, t_max: Scalar) -> (res: Option<HitInfo>) {
        proof {
            self.lemma_hit_in_window(*ray, t_min, t_max);
            self.lemma_hit_faces_ray(*ray, t_min, t_max);
        }
        let mut closest = t_max;
        let mut best: Option<HitInfo> = None;
        let mut k: usize = 0;
        while k < self.objects.len()
            invariant
                k <= self.objects@.len(),
                best == scan_hit(self.objects@, k as nat, *ray, t_min, t_max),
                closest == closest_so_far(best, t_max),
            decreases self.objects@.len() - k,
        {
            if let Some(info) = self.objects[k].hit(ray, t_min, closest) {
                closest = info.t;
                best = Some(info);
            }
            k = k + 1;
        }
        best
    }
}

} // verus!
