//! Surface materials and how they scatter light.
//!
//! A material decides, for an incoming ray and a hit, whether a ray leaves
//! the surface, in which direction, and how much of each colour it keeps.
//! Each material has a function that takes the random sample as an
//! argument and is exact, and an implementation of [`Material::scatter`]
//! that draws the sample.

use crate::hittable::HitInfo;
use crate::ray::Ray;
use crate::scalar::{lemma_mul_by_fraction, Scalar, ONE};
use crate::utils::{
    in_unit_ball, is_unit_sample, random_double, random_point_in_sphere, random_unit_vector,
    reflect, refract, spec_reflect, spec_refract,
};
use crate::vec3::{Color, Vec3};
use std::ops::Neg;
use vstd::prelude::*;

verus! {

/// How a surface scatters light.
pub trait Material {
    /// Whether `out` is a possible outcome of scattering the ray `r` at the
    /// hit `info`: `None` when the ray is absorbed, else the scattered ray
    /// and the attenuation.
    spec fn may_scatter(&self, r: Ray, info: HitInfo, out: Option<(Ray, Color)>) -> bool;

    /// Scatters the incoming ray `r`, which has a direction, at the hit
    /// `info`.
    fn scatter(&self, r: &Ray, info: HitInfo) -> (out: Option<(Ray, Color)>)
        requires
            !r.dir.spec_is_zero(),
        ensures
            self.may_scatter(*r, info, out),
    ;
}

/// A diffuse surface.
#[derive(Clone, Copy, PartialEq, Eq, Structural, Debug)]
pub struct Lambertian {
    pub albedo: Color,
}

/// A mirror-like surface; `fuzz` in `[0, 1]` blurs the reflection, and zero
/// is a perfect mirror.
#[derive(Clone, Copy, PartialEq, Eq, Structural, Debug)]
pub struct Metal {
    pub albedo: Color,
    pub fuzz: Scalar,
}

/// A transparent surface with index of refraction `ir`.
#[derive(Clone, Copy, PartialEq, Eq, Structural, Debug)]
pub struct Dieletric {
    pub ir: Scalar,
}

/// Any of the materials; what a surface and a hit record hold.
#[derive(Clone, Copy, PartialEq, Eq, Structural, Debug)]
pub enum AnyMaterial {
    Lambertian(Lambertian),
    Metal(Metal),
    Dieletric(Dieletric),
}

/// The colour that leaves every channel as it is.
pub open spec fn spec_white() -> Color {
    Vec3 { x: Scalar::of(ONE as int), y: Scalar::of(ONE as int), z: Scalar::of(ONE as int) }
}

impl Lambertian {
    /// The ray leaves the hit point along `normal + u`, or along the normal
    /// where that sum has no direction; the attenuation is the albedo.
    pub open spec fn spec_scatter_with(self, info: HitInfo, u: Vec3) -> (Ray, Color) {
        let dir = info.normal.spec_add(u);
        (
            Ray {
                orig: info.p,
                dir: if dir.spec_is_zero() {
                    info.normal
                } else {
                    dir
                },
            },
            self.albedo,
        )
    }

    /// Whether `out` is the outcome of scattering for some direction that
    /// the sampler of directions may return.
    pub open spec fn scatters_to(self, info: HitInfo, out: Option<(Ray, Color)>) -> bool {
        exists|u: Vec3| is_unit_sample(u) && out == Some(#[trigger] self.spec_scatter_with(info, u))
    }

    /// Diffuse scattering with the random direction `u` given. Where the
    /// normal has a direction, so has the scattered ray.
    pub fn scatter_with(&self, info: HitInfo, u: Vec3) -> (out: (Ray, Color))
        ensures
            out == self.spec_scatter_with(info, u),
            out.1 == self.albedo,
            !info.normal.spec_is_zero() ==> !out.0.dir.spec_is_zero(),
    {
        let mut dir = info.normal + u;

        if dir.is_zero() {
            dir = info.normal;
        }
        let scattered = Ray { orig: info.p, dir };
        let attenuation = self.albedo;

        (scattered, attenuation)
    }
}

impl Material for Lambertian {
    open spec fn may_scatter(&self, r: Ray, info: HitInfo, out: Option<(Ray, Color)>) -> bool {
        self.scatters_to(info, out)
    }

    /// Always scatters, and attenuates by the albedo.
    fn scatter(&self, r: &Ray, info: HitInfo) -> (out: Option<(Ray, Color)>)
        ensures
            out matches Some(pair) && pair.1 == self.albedo && pair.0.orig == info.p,
    {
        let u = random_unit_vector();
        Some(self.scatter_with(info, u))
    }
}

impl Metal {
    /// The mirror direction of the ray at the hit: the reflection of the
    /// unit incoming direction about the normal.
    pub open spec fn spec_mirror(r: Ray, info: HitInfo) -> Vec3 {
        spec_reflect(r.dir.spec_unit(), info.normal)
    }

    /// The ray leaves the hit point along the mirror direction plus `fuzz`
    /// times `p`, with the albedo as attenuation; it is absorbed where that
    /// direction does not point away from the surface.
    pub open spec fn spec_scatter_with(self, r: Ray, info: HitInfo, p: Vec3) -> Option<
        (Ray, Color),
    > {
        let dir = Metal::spec_mirror(r, info).spec_add(p.spec_scale(self.fuzz));
        if dir.spec_dot(info.normal)@ <= 0 {
            None
        } else {
            Some((Ray { orig: info.p, dir }, self.albedo))
        }
    }

    /// Whether `out` is the outcome of scattering for some point that the
    /// sampler of the unit ball may return.
    pub open spec fn scatters_to(self, r: Ray, info: HitInfo, out: Option<(Ray, Color)>) -> bool {
        exists|p: Vec3| in_unit_ball(p) && out == #[trigger] self.spec_scatter_with(r, info, p)
    }

    /// Specular scattering with the random point `p` of the unit ball
    /// given.
    pub fn scatter_with(&self, r: &Ray, info: HitInfo, p: Vec3) -> (out: Option<(Ray, Color)>)
        requires
            !r.dir.spec_is_zero(),
        ensures
            out == self.spec_scatter_with(*r, info, p),
            self.fuzz@ == 0 ==> out == self.spec_scatter_with(*r, info, Vec3::spec_zero()),
    {
        proof {
            if self.fuzz@ == 0 {
                lemma_mirror_ignores_sample(*self, *r, info, p);
            }
        }
        let dir = reflect(r.dir.unit(), info.normal) + self.fuzz * p;

        if dir.dot(info.normal).le(Scalar::zero()) {
            None
        } else {
            let scattered = Ray { orig: info.p, dir };
            let attenuation = self.albedo;

            Some((scattered, attenuation))
        }
    }
}

/// Whether every channel of `c` lies between zero and one.
pub open spec fn is_fraction(c: Color) -> bool {
    0 <= c.x@ <= ONE && 0 <= c.y@ <= ONE && 0 <= c.z@ <= ONE
}

/// Attenuation never adds energy: an attenuation between zero and one, such
/// as the albedo that a diffuse or metal surface attenuates by, gives from
/// a colour without negative channels a colour that is in no channel
/// negative, and in none above what came in.
pub proof fn lemma_attenuation_keeps_energy(attenuation: Color, incoming: Color)
    requires
        is_fraction(attenuation),
        incoming.x@ >= 0,
        incoming.y@ >= 0,
        incoming.z@ >= 0,
    ensures
        0 <= attenuation.spec_mul(incoming).x@ <= incoming.x@,
        0 <= attenuation.spec_mul(incoming).y@ <= incoming.y@,
        0 <= attenuation.spec_mul(incoming).z@ <= incoming.z@,
{
    lemma_mul_by_fraction(attenuation.x, incoming.x);
    lemma_mul_by_fraction(attenuation.y, incoming.y);
    lemma_mul_by_fraction(attenuation.z, incoming.z);
}

/// Diffuse and metal surfaces never add energy: where the albedo lies
/// between zero and one, whatever such a surface scatters is attenuated by
/// the albedo, and the attenuated colour is in no channel negative, and in
/// none above the colour that came back along the scattered ray.
pub proof fn lemma_scatter_keeps_energy(
    m: AnyMaterial,
    r: Ray,
    info: HitInfo,
    out: Option<(Ray, Color)>,
    incoming: Color,
)
    requires
        match m {
            AnyMaterial::Lambertian(l) => is_fraction(l.albedo),
            AnyMaterial::Metal(l) => is_fraction(l.albedo),
            AnyMaterial::Dieletric(_) => false,
        },
        m.scatters_to(r, info, out),
        out is Some,
        incoming.x@ >= 0,
        incoming.y@ >= 0,
        incoming.z@ >= 0,
    ensures
        is_fraction(out.unwrap().1),
        0 <= out.unwrap().1.spec_mul(incoming).x@ <= incoming.x@,
        0 <= out.unwrap().1.spec_mul(incoming).y@ <= incoming.y@,
        0 <= out.unwrap().1.spec_mul(incoming).z@ <= incoming.z@,
{
    lemma_attenuation_keeps_energy(out.unwrap().1, incoming);
}

/// Total internal reflection: a ray that cannot be refracted leaves glass
/// along the mirror direction, whatever number is drawn.
pub proof fn lemma_total_internal_reflection(glass: Dieletric, r: Ray, info: HitInfo, x: Scalar)
    requires
        glass.spec_cannot_refract(r, info),
    ensures
        glass.spec_scatter_with(r, info, x) == (
            Ray { orig: info.p, dir: spec_reflect(r.dir.spec_unit(), info.normal) },
            spec_white(),
        ),
{
}

/// A metal without fuzz reflects deterministically: whatever point is
/// sampled, the ray leaves along the exact mirror direction, and is absorbed
/// only where that direction does not point away from the surface.
pub proof fn lemma_mirror_ignores_sample(m: Metal, r: Ray, info: HitInfo, p: Vec3)
    requires
        m.fuzz@ == 0,
    ensures
        m.spec_scatter_with(r, info, p) == m.spec_scatter_with(r, info, Vec3::spec_zero()),
        m.spec_scatter_with(r, info, p) == if Metal::spec_mirror(r, info).spec_dot(info.normal)@
            <= 0 {
            None
        } else {
            Some((Ray { orig: info.p, dir: Metal::spec_mirror(r, info) }, m.albedo))
        },
{
    assert(p.x@ * 0 == 0 && p.y@ * 0 == 0 && p.z@ * 0 == 0);
    assert(p.spec_scale(m.fuzz) == Vec3::spec_zero());
    assert(Vec3::spec_zero().spec_scale(m.fuzz) == Vec3::spec_zero());
    let mirror = Metal::spec_mirror(r, info);
    assert(mirror.spec_add(Vec3::spec_zero()) == mirror);
}

impl Material for Metal {
    open spec fn may_scatter(&self, r: Ray, info: HitInfo, out: Option<(Ray, Color)>) -> bool {
        self.scatters_to(r, info, out)
    }

    /// Scatters along the fuzzed mirror direction. Without fuzz the outcome
    /// does not depend on chance.
    fn scatter(&self, r: &Ray, info: HitInfo) -> (out: Option<(Ray, Color)>)
        ensures
            self.fuzz@ == 0 ==> out == self.spec_scatter_with(*r, info, Vec3::spec_zero()),
            out matches Some(pair) ==> pair.1 == self.albedo && pair.0.orig == info.p,
    {
        let p = random_point_in_sphere();
        self.scatter_with(r, info, p)
    }
}

impl Dieletric {
    /// Schlick's approximation of the reflectance:
    /// `r0 + (1 - r0) (1 - cosine)^5` with `r0 = ((1 - ref_idx) / (1 + ref_idx))^2`.
    pub open spec fn spec_reflectance(cosine: Scalar, ref_idx: Scalar) -> Scalar {
        let one = Scalar::of(ONE as int);
        let q = one.spec_sub(ref_idx).spec_div(one.spec_add(ref_idx));
        let r0 = q.spec_mul(q);
        r0.spec_add(one.spec_sub(r0).spec_mul(one.spec_sub(cosine).spec_powi(5)))
    }

    /// The ratio of refraction indices that the ray meets: `1 / ir` where it
    /// enters through the front face, `ir` where it leaves.
    pub open spec fn spec_refraction_ratio(self, info: HitInfo) -> Scalar {
        if info.front_face {
            Scalar::of(ONE as int).spec_div(self.ir)
        } else {
            self.ir
        }
    }

    /// The cosine of the angle of incidence, capped at one.
    pub open spec fn spec_cos_theta(r: Ray, info: HitInfo) -> Scalar {
        info.normal.spec_dot(r.dir.spec_unit().spec_neg()).spec_min(Scalar::of(ONE as int))
    }

    /// The sine of the angle of incidence: `sqrt(1 - cos^2)`.
    pub open spec fn spec_sin_theta(r: Ray, info: HitInfo) -> Scalar {
        let c = Dieletric::spec_cos_theta(r, info);
        Scalar::of(ONE as int).spec_sub(c.spec_mul(c)).spec_sqrt()
    }

    /// Whether the ray is totally reflected: `ratio * sin_theta > 1`, so
    /// that no refracted direction exists.
    pub open spec fn spec_cannot_refract(self, r: Ray, info: HitInfo) -> bool {
        self.spec_refraction_ratio(info).spec_mul(Dieletric::spec_sin_theta(r, info))@ > ONE
    }

    /// Whether the ray is reflected: totally, or because the reflectance
    /// exceeds the sample `x`.
    pub open spec fn spec_reflects(self, r: Ray, info: HitInfo, x: Scalar) -> bool {
        self.spec_cannot_refract(r, info) || Dieletric::spec_reflectance(
            Dieletric::spec_cos_theta(r, info),
            self.spec_refraction_ratio(info),
        )@ > x@
    }

    /// The ray leaves the hit point reflected or refracted, with nothing
    /// absorbed.
    pub open spec fn spec_scatter_with(self, r: Ray, info: HitInfo, x: Scalar) -> (Ray, Color) {
        let unit_direction = r.dir.spec_unit();
        (
            Ray {
                orig: info.p,
                dir: if self.spec_reflects(r, info, x) {
                    spec_reflect(unit_direction, info.normal)
                } else {
                    spec_refract(unit_direction, info.normal, self.spec_refraction_ratio(info))
                },
            },
            spec_white(),
        )
    }

    /// Whether `out` is the outcome of scattering for some number of
    /// `[0, 1)`.
    pub open spec fn scatters_to(self, r: Ray, info: HitInfo, out: Option<(Ray, Color)>) -> bool {
        exists|x: Scalar|
            0 <= x@ < ONE && out == Some(#[trigger] self.spec_scatter_with(r, info, x))
    }

    /// Schlick's approximation of the reflectance.
    pub fn reflectance(cosine: Scalar, ref_idx: Scalar) -> (r: Scalar)
        ensures
            r == Dieletric::spec_reflectance(cosine, ref_idx),
    {
        let r0 = (Scalar::one() - ref_idx) / (Scalar::one() + ref_idx);
        let r0 = r0 * r0;
        r0 + (Scalar::one() - r0) * (Scalar::one() - cosine).powi(5)
    }

    /// Refractive scattering with the random number `x` of `[0, 1)` given.
    /// A ray that cannot be refracted is reflected, whatever `x` is.
    pub fn scatter_with(&self, r: &Ray, info: HitInfo, x: Scalar) -> (out: (Ray, Color))
        requires
            !r.dir.spec_is_zero(),
        ensures
            out == self.spec_scatter_with(*r, info, x),
            out.1 == spec_white(),
            self.spec_cannot_refract(*r, info) ==> out.0.dir == spec_reflect(
                r.dir.spec_unit(),
                info.normal,
            ),
    {
        let attenuation = Color::new(Scalar::one(), Scalar::one(), Scalar::one());

        let refraction_ratio = if info.front_face {
            Scalar::one() / self.ir
        } else {
            self.ir
        };

        let unit_direction = r.direction().unit();

        let cos_theta = info.normal.dot(unit_direction.neg()).min(Scalar::one());
        let sin_theta = (Scalar::one() - cos_theta * cos_theta).sqrt();
        let cannot_refract = (refraction_ratio * sin_theta).gt(Scalar::one());
        let will_reflect = Dieletric::reflectance(cos_theta, refraction_ratio).gt(x);

        let direction = if cannot_refract || will_reflect {
            reflect(unit_direction, info.normal)
        } else {
            refract(unit_direction, info.normal, refraction_ratio)
        };

        let scattered = Ray { orig: info.p, dir: direction };

        (scattered, attenuation)
    }
}

impl Material for Dieletric {
    open spec fn may_scatter(&self, r: Ray, info: HitInfo, out: Option<(Ray, Color)>) -> bool {
        self.scatters_to(r, info, out)
    }

    /// Always scatters, with nothing absorbed; under total internal
    /// reflection the ray leaves along the mirror direction.
    fn scatter(&self, r: &Ray, info: HitInfo) -> (out: Option<(Ray, Color)>)
        ensures
            out matches Some(pair) && pair.1 == spec_white() && pair.0.orig == info.p && (
            self.spec_cannot_refract(*r, info) ==> pair.0.dir == spec_reflect(
                r.dir.spec_unit(),
                info.normal,
            )),
    {
        let x = random_double();
        Some(self.scatter_with(r, info, x))
    }
}

impl AnyMaterial {
    /// Whether `out` is a possible outcome of scattering at the material
    /// held.
    pub open spec fn scatters_to(self, r: Ray, info: HitInfo, out: Option<(Ray, Color)>) -> bool {
        match self {
            AnyMaterial::Lambertian(m) => m.scatters_to(info, out),
            AnyMaterial::Metal(m) => m.scatters_to(r, info, out),
            AnyMaterial::Dieletric(m) => m.scatters_to(r, info, out),
        }
    }
}

impl Material for AnyMaterial {
    open spec fn may_scatter(&self, r: Ray, info: HitInfo, out: Option<(Ray, Color)>) -> bool {
        self.scatters_to(r, info, out)
    }

    fn scatter(&self, r: &Ray, info: HitInfo) -> (out: Option<(Ray, Color)>) {
        match self {
            AnyMaterial::Lambertian(m) => m.scatter(r, info),
            AnyMaterial::Metal(m) => m.scatter(r, info),
            AnyMaterial::Dieletric(m) => m.scatter(r, info),
        }
    }
}

} // verus!
