//! A demonstration scene: a ground, a field of small random spheres and
//! three large ones.

use crate::hittable::HittableList;
use crate::material::{AnyMaterial, Dieletric, Lambertian, Metal};
use crate::scalar::{lemma_mul_by_fraction, trunc_div, Scalar, ONE};
use crate::sphere::Sphere;
use crate::utils::random_double;
use crate::vec3::{Color, Point3, Vec3};
use vstd::prelude::*;

verus! {

/// Half the side of the field of small spheres, in grid cells.
pub const FIELD: i64 = 11;

/// The scalar for the whole number `n`.
pub open spec fn whole(n: int) -> Scalar {
    Scalar::of(n * ONE)
}

/// The scalar `num / den`, rounded toward zero.
pub open spec fn ratio(num: int, den: int) -> Scalar {
    Scalar::of(trunc_div(num * ONE, den))
}

/// The ground: a grey diffuse sphere of radius 1000 that touches the
/// origin from below.
pub open spec fn spec_ground() -> Sphere {
    Sphere {
        center: Vec3 { x: whole(0), y: whole(-1000), z: whole(0) },
        radius: whole(1000),
        material: AnyMaterial::Lambertian(
            Lambertian { albedo: Vec3 { x: ratio(1, 2), y: ratio(1, 2), z: ratio(1, 2) } },
        ),
    }
}

/// The large glass sphere at the origin.
pub open spec fn spec_glass_ball() -> Sphere {
    Sphere {
        center: Vec3 { x: whole(0), y: whole(1), z: whole(0) },
        radius: whole(1),
        material: AnyMaterial::Dieletric(Dieletric { ir: ratio(3, 2) }),
    }
}

/// The large diffuse sphere behind the glass one.
pub open spec fn spec_matte_ball() -> Sphere {
    Sphere {
        center: Vec3 { x: whole(-4), y: whole(1), z: whole(0) },
        radius: whole(1),
        material: AnyMaterial::Lambertian(
            Lambertian { albedo: Vec3 { x: ratio(2, 5), y: ratio(1, 5), z: ratio(1, 10) } },
        ),
    }
}

/// The large mirror sphere in front of the glass one.
pub open spec fn spec_mirror_ball() -> Sphere {
    Sphere {
        center: Vec3 { x: whole(4), y: whole(1), z: whole(0) },
        radius: whole(1),
        material: AnyMaterial::Metal(
            Metal {
                albedo: Vec3 { x: ratio(7, 10), y: ratio(3, 5), z: ratio(1, 2) },
                fuzz: whole(0),
            },
        ),
    }
}

/// Whether a small sphere at `center` keeps clear of the large mirror
/// sphere: farther than `0.9` from the point `(4, 0.2, 0)`.
pub open spec fn spec_keeps_clear(center: Point3) -> bool {
    center.spec_sub(Vec3 { x: whole(4), y: ratio(1, 5), z: whole(0) }).spec_length()@
        > ratio(9, 10)@
}

/// The material of a small sphere for the number `choose_mat` of `[0, 1)`:
/// diffuse below `0.8`, metal from there to below `0.95`, glass above.
pub open spec fn spec_small_material(choose_mat: Scalar, albedo: Color, fuzz: Scalar) -> AnyMaterial {
    if choose_mat@ < ratio(4, 5)@ {
        AnyMaterial::Lambertian(Lambertian { albedo })
    } else if choose_mat@ < ratio(19, 20)@ {
        AnyMaterial::Metal(Metal { albedo, fuzz })
    } else {
        AnyMaterial::Dieletric(Dieletric { ir: ratio(3, 2) })
    }
}

/// The small sphere at `center`, if it keeps clear: radius `0.2`, material
/// by `choose_mat`.
pub open spec fn spec_small_sphere(
    center: Point3,
    choose_mat: Scalar,
    albedo: Color,
    fuzz: Scalar,
) -> Option<Sphere> {
    if spec_keeps_clear(center) {
        Some(
            Sphere {
                center,
                radius: ratio(1, 5),
                material: spec_small_material(choose_mat, albedo, fuzz),
            },
        )
    } else {
        None
    }
}

/// Whether `c` has every channel in `[0, 1)`.
pub open spec fn in_unit_cube(c: Color) -> bool {
    0 <= c.x@ < ONE && 0 <= c.y@ < ONE && 0 <= c.z@ < ONE
}

/// Whether `s` is a sphere that the field of small spheres may hold: of
/// radius `0.2`, resting on the ground within the field, clear of the
/// large mirror sphere, and diffuse or metal with random parameters of
/// `[0, 1)`, or glass.
pub open spec fn is_small_sphere(s: Sphere) -> bool {
    &&& s.radius == ratio(1, 5)
    &&& s.center.y == ratio(1, 5)
    &&& -FIELD * ONE <= s.center.x@ < FIELD * ONE
    &&& -FIELD * ONE <= s.center.z@ < FIELD * ONE
    &&& spec_keeps_clear(s.center)
    &&& match s.material {
        AnyMaterial::Lambertian(m) => in_unit_cube(m.albedo),
        AnyMaterial::Metal(m) => in_unit_cube(m.albedo) && 0 <= m.fuzz@ < ONE,
        AnyMaterial::Dieletric(m) => m.ir == ratio(3, 2),
    }
}

/// The small sphere at `center`, if it keeps clear of the large mirror
/// sphere, with the random numbers given.
pub fn small_sphere(center: Point3, choose_mat: Scalar, albedo: Color, fuzz: Scalar) -> (s: Option<
    Sphere,
>)
    ensures
        s == spec_small_sphere(center, choose_mat, albedo, fuzz),
{
    let mark = Point3::new(Scalar::from_int(4), Scalar::from_ratio(1, 5), Scalar::from_int(0));
    if (center - mark).length().gt(Scalar::from_ratio(9, 10)) {
        let radius = Scalar::from_ratio(1, 5);
        if choose_mat.lt(Scalar::from_ratio(4, 5)) {
            let sphere_mat = AnyMaterial::Lambertian(Lambertian { albedo });
            Some(Sphere::new(center, radius, sphere_mat))
        } else if choose_mat.lt(Scalar::from_ratio(19, 20)) {
            let sphere_mat = AnyMaterial::Metal(Metal { albedo, fuzz });
            Some(Sphere::new(center, radius, sphere_mat))
        } else {
            let sphere_mat = AnyMaterial::Dieletric(Dieletric { ir: Scalar::from_ratio(3, 2) });
            Some(Sphere::new(center, radius, sphere_mat))
        }
    } else {
        None
    }
}

/// A random colour with every channel in `[0, 1)`.
fn random_color() -> (c: Color)
    ensures
        in_unit_cube(c),
{
    Color::new(random_double(), random_double(), random_double())
}

/// The random centre of the small sphere of grid cell `(a, b)`:
/// `(a + 0.9 x, 0.2, b + z)` with `x` and `z` drawn from `[0, 1)`.
fn random_center(a: i64, b: i64) -> (center: Point3)
    requires
        -FIELD <= a < FIELD,
        -FIELD <= b < FIELD,
    ensures
        center.y == ratio(1, 5),
        a * ONE <= center.x@ < (a + 1) * ONE,
        b * ONE <= center.z@ < (b + 1) * ONE,
{
    let x = random_double();
    let dx = Scalar::from_ratio(9, 10) * x;
    let dz = random_double();
    proof {
        assert(ONE == 0x1_0000_0000);
        assert(9 * ONE == 38654705664);
        assert(38654705664int / 10 == 3865470566);
        assert(trunc_div(38654705664, 10) == 3865470566);
        lemma_mul_by_fraction(ratio(9, 10), x);
    }
    Point3::new(Scalar::from_int(a) + dx, Scalar::from_ratio(1, 5), Scalar::from_int(b) + dz)
}

/// The demonstration scene: the ground first, then the small spheres that
/// keep clear, cell by cell, then the three large spheres.
pub fn random_scene() -> (world: HittableList<Sphere>)
    ensures
        4 <= world.objects@.len() <= 4 + 22 * 22,
        world.objects@[0] == spec_ground(),
        world.objects@[world.objects@.len() - 3] == spec_glass_ball(),
        world.objects@[world.objects@.len() - 2] == spec_matte_ball(),
        world.objects@[world.objects@.len() - 1] == spec_mirror_ball(),
        forall|k: int| 1 <= k < world.objects@.len() - 3 ==> is_small_sphere(#[trigger] world.objects@[k]),
{
    let mut world = HittableList::new();

    world.add(
        Sphere::new(
            Point3::new(Scalar::from_int(0), Scalar::from_int(-1000), Scalar::from_int(0)),
            Scalar::from_int(1000),
            AnyMaterial::Lambertian(
                Lambertian {
                    albedo: Color::new(
                        Scalar::from_ratio(1, 2),
                        Scalar::from_ratio(1, 2),
                        Scalar::from_ratio(1, 2),
                    ),
                },
            ),
        ),
    );

    let mut a: i64 = -FIELD;
    while a < FIELD
        invariant
            -FIELD <= a <= FIELD,
            1 <= world.objects@.len() <= 1 + (a + 11) * 22,
            world.objects@[0] == spec_ground(),
            forall|k: int| 1 <= k < world.objects@.len() ==> is_small_sphere(#[trigger] world.objects@[k]),
        decreases FIELD - a,
    {
        let mut b: i64 = -FIELD;
        while b < FIELD
            invariant
                -FIELD <= a < FIELD,
                -FIELD <= b <= FIELD,
                1 <= world.objects@.len() <= 1 + (a + 11) * 22 + (b + 11),
                world.objects@[0] == spec_ground(),
                forall|k: int| 1 <= k < world.objects@.len() ==> is_small_sphere(#[trigger] world.objects@[k]),
            decreases FIELD - b,
        {
            let choose_mat = random_double();
            let center = random_center(a, b);
            let albedo = random_color();
            let fuzz = random_double();
            if let Some(sphere) = small_sphere(center, choose_mat, albedo, fuzz) {
                world.add(sphere);
            }
            b = b + 1;
        }
        a = a + 1;
    }

    world.add(
        Sphere::new(
            Point3::new(Scalar::from_int(0), Scalar::from_int(1), Scalar::from_int(0)),
            Scalar::from_int(1),
            AnyMaterial::Dieletric(Dieletric { ir: Scalar::from_ratio(3, 2) }),
        ),
    );
    world.add(
        Sphere::new(
            Point3::new(Scalar::from_int(-4), Scalar::from_int(1), Scalar::from_int(0)),
            Scalar::from_int(1),
            AnyMaterial::Lambertian(
                Lambertian {
                    albedo: Color::new(
                        Scalar::from_ratio(2, 5),
                        Scalar::from_ratio(1, 5),
                        Scalar::from_ratio(1, 10),
                    ),
                },
            ),
        ),
    );
    world.add(
        Sphere::new(
            Point3::new(Scalar::from_int(4), Scalar::from_int(1), Scalar::from_int(0)),
            Scalar::from_int(1),
            AnyMaterial::Metal(
                Metal {
                    albedo: Color::new(
                        Scalar::from_ratio(7, 10),
                        Scalar::from_ratio(3, 5),
                        Scalar::from_ratio(1, 2),
                    ),
                    fuzz: Scalar::from_int(0),
                },
            ),
        ),
    );

    world
}

} // verus!
