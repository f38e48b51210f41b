use raytracer::hittable::{HitInfo, Hittable, HittableList};
use raytracer::material::{AnyMaterial, Lambertian, Metal};
use raytracer::ray::Ray;
use raytracer::scalar::Scalar;
use raytracer::sphere::Sphere;
use raytracer::vec3::Vec3;

fn fx(v: f64) -> Scalar {
    Scalar::from_raw((v * 4294967296.0).round() as i64)
}

fn fl(s: Scalar) -> f64 {
    s.to_raw() as f64 / 4294967296.0
}

fn v3(x: f64, y: f64, z: f64) -> Vec3 {
    Vec3::new(fx(x), fx(y), fx(z))
}

fn near(a: Vec3, x: f64, y: f64, z: f64) -> bool {
    (fl(a.x) - x).abs() < 1e-6 && (fl(a.y) - y).abs() < 1e-6 && (fl(a.z) - z).abs() < 1e-6
}

fn grey() -> AnyMaterial {
    AnyMaterial::Lambertian(Lambertian { albedo: v3(0.5, 0.5, 0.5) })
}

fn steel() -> AnyMaterial {
    AnyMaterial::Metal(Metal { albedo: v3(0.8, 0.8, 0.8), fuzz: Scalar::zero() })
}

fn ball(z: f64, r: f64) -> Sphere {
    Sphere::new(v3(0.0, 0.0, z), fx(r), grey())
}

fn whole() -> (Scalar, Scalar) {
    (fx(0.0001), Scalar::max_value())
}

#[test]
fn sphere_hit_head_on_from_outside() {
    let s = ball(-2.0, 1.0);
    let r = Ray::new(v3(0.0, 0.0, 0.0), v3(0.0, 0.0, -1.0));
    let (lo, hi) = whole();
    let info = s.hit(&r, lo, hi).unwrap();
    // distance to the centre minus the radius
    assert_eq!(info.t, fx(1.0));
    assert_eq!(info.p, v3(0.0, 0.0, -1.0));
    // outward, along the reverse of the ray
    assert_eq!(info.normal, v3(0.0, 0.0, 1.0));
    assert!(info.front_face);
    assert_eq!(info.material, grey());
}

#[test]
fn sphere_hit_does_not_assume_unit_direction() {
    let s = ball(-2.0, 1.0);
    let r = Ray::new(v3(0.0, 0.0, 0.0), v3(0.0, 0.0, -2.0));
    let (lo, hi) = whole();
    let info = s.hit(&r, lo, hi).unwrap();
    assert_eq!(info.t, fx(0.5));
    assert_eq!(info.p, v3(0.0, 0.0, -1.0));
    assert_eq!(info.normal, v3(0.0, 0.0, 1.0));
}

#[test]
fn sphere_hit_aimed_at_centre_from_oblique_origin() {
    let s = Sphere::new(v3(0.0, 0.0, 0.0), fx(1.0), grey());
    let r = Ray::new(v3(3.0, 4.0, 0.0), v3(-0.6, -0.8, 0.0));
    let (lo, hi) = whole();
    let info = s.hit(&r, lo, hi).unwrap();
    assert!((fl(info.t) - 4.0).abs() < 1e-6);
    assert!(near(info.normal, 0.6, 0.8, 0.0));
    assert!(info.front_face);
}

#[test]
fn sphere_tangent_ray_hits_once() {
    let s = ball(-2.0, 1.0);
    let r = Ray::new(v3(1.0, 0.0, 0.0), v3(0.0, 0.0, -1.0));
    let (lo, hi) = whole();
    let info = s.hit(&r, lo, hi).unwrap();
    assert_eq!(info.t, fx(2.0));
    assert_eq!(info.p, v3(1.0, 0.0, -2.0));
    // the ray runs along the surface: the dot product with the outward
    // normal (1, 0, 0) is zero, which is no front face
    assert!(!info.front_face);
    assert_eq!(info.normal, v3(-1.0, 0.0, 0.0));
    // the two roots coincide: past the point of tangency there is nothing
    assert!(s.hit(&r, fx(2.0001), hi).is_none());
    assert!(s.hit(&r, lo, fx(1.9999)).is_none());
}

#[test]
fn sphere_miss_when_discriminant_negative() {
    let s = ball(-2.0, 1.0);
    let r = Ray::new(v3(2.0, 0.0, 0.0), v3(0.0, 0.0, -1.0));
    let (lo, hi) = whole();
    assert!(s.hit(&r, lo, hi).is_none());
}

#[test]
fn sphere_hit_respects_window() {
    let s = ball(-2.0, 1.0);
    let r = Ray::new(v3(0.0, 0.0, 0.0), v3(0.0, 0.0, -1.0));
    // both roots, 1 and 3, beyond the window
    assert!(s.hit(&r, fx(0.0), fx(0.5)).is_none());
    // both roots before the window
    assert!(s.hit(&r, fx(3.5), fx(10.0)).is_none());
    // the ends of the window belong to it
    assert_eq!(s.hit(&r, fx(1.0), fx(1.0)).unwrap().t, fx(1.0));
    assert_eq!(s.hit(&r, fx(3.0), fx(3.0)).unwrap().t, fx(3.0));
}

#[test]
fn sphere_far_root_taken_when_near_root_outside_window() {
    let s = ball(-2.0, 1.0);
    let r = Ray::new(v3(0.0, 0.0, 0.0), v3(0.0, 0.0, -1.0));
    let info = s.hit(&r, fx(1.5), fx(10.0)).unwrap();
    assert_eq!(info.t, fx(3.0));
    assert_eq!(info.p, v3(0.0, 0.0, -3.0));
    // leaving the sphere: back face, normal turned against the ray
    assert!(!info.front_face);
    assert_eq!(info.normal, v3(0.0, 0.0, 1.0));
}

#[test]
fn sphere_hit_from_inside_is_back_face() {
    let s = ball(-2.0, 1.0);
    let r = Ray::new(v3(0.0, 0.0, -2.0), v3(0.0, 0.0, -1.0));
    let (lo, hi) = whole();
    let info = s.hit(&r, lo, hi).unwrap();
    assert_eq!(info.t, fx(1.0));
    assert!(!info.front_face);
    assert_eq!(info.normal, v3(0.0, 0.0, 1.0));
    assert!(r.direction().dot(info.normal).le(Scalar::zero()));
}

#[test]
fn sphere_negative_radius_turns_surface_inside_out() {
    let s = ball(-2.0, -1.0);
    let r = Ray::new(v3(0.0, 0.0, 0.0), v3(0.0, 0.0, -1.0));
    let (lo, hi) = whole();
    let info = s.hit(&r, lo, hi).unwrap();
    assert_eq!(info.t, fx(1.0));
    assert!(!info.front_face);
    assert_eq!(info.normal, v3(0.0, 0.0, 1.0));
}

#[test]
fn sphere_degenerate_cases_are_no_hit() {
    let (lo, hi) = whole();
    let s = ball(-2.0, 1.0);
    let still = Ray::new(v3(0.0, 0.0, 0.0), Vec3::zero());
    assert!(s.hit(&still, lo, hi).is_none());
    let point = ball(-2.0, 0.0);
    let r = Ray::new(v3(0.0, 0.0, 0.0), v3(0.0, 0.0, -1.0));
    assert!(point.hit(&r, lo, hi).is_none());
}

#[test]
fn hit_info_front_face_iff_negative_dot() {
    let r = Ray::new(v3(0.0, 0.0, 0.0), v3(1.0, -1.0, 0.0));
    let up = v3(0.0, 1.0, 0.0);
    let front = HitInfo::new(&r, v3(1.0, 0.0, 0.0), up, fx(1.0), steel());
    assert!(front.front_face);
    assert_eq!(front.normal, up);
    assert_eq!(front.p, v3(1.0, 0.0, 0.0));
    assert_eq!(front.t, fx(1.0));
    assert_eq!(front.material, steel());

    let down = v3(0.0, -1.0, 0.0);
    let back = HitInfo::new(&r, v3(1.0, 0.0, 0.0), down, fx(1.0), steel());
    assert!(!back.front_face);
    assert_eq!(back.normal, up);

    // a ray along the surface: dot product zero is not a front face
    let side = v3(1.0, 1.0, 0.0);
    let graze = HitInfo::new(&r, v3(1.0, 0.0, 0.0), side, fx(1.0), steel());
    assert!(!graze.front_face);
    assert_eq!(graze.normal, v3(-1.0, -1.0, 0.0));
}

#[test]
fn hit_info_stored_normal_never_along_ray() {
    let dirs = [v3(1.0, 2.0, 3.0), v3(-0.3, 0.2, 0.1), v3(0.0, 0.0, -5.0), v3(7.5, -0.001, 2.0)];
    let normals = [v3(0.0, 1.0, 0.0), v3(-1.0, 0.0, 0.0), v3(0.6, 0.0, 0.8), v3(0.3, -0.9, 0.1)];
    for d in dirs.iter() {
        for n in normals.iter() {
            let r = Ray::new(Vec3::zero(), *d);
            let info = HitInfo::new(&r, Vec3::zero(), *n, fx(1.0), grey());
            assert!(d.dot(info.normal).le(Scalar::zero()));
            assert_eq!(info.front_face, d.dot(*n).lt(Scalar::zero()));
        }
    }
}

#[test]
fn list_empty_has_no_hit() {
    let world: HittableList<Sphere> = HittableList::new();
    assert_eq!(world.objects.len(), 0);
    let r = Ray::new(v3(0.0, 0.0, 0.0), v3(0.0, 0.0, -1.0));
    let (lo, hi) = whole();
    assert!(world.hit(&r, lo, hi).is_none());
}

#[test]
fn list_add_appends_in_order() {
    let mut world = HittableList::new();
    world.add(ball(-2.0, 1.0));
    world.add(ball(-5.0, 1.0));
    assert_eq!(world.objects.len(), 2);
    assert_eq!(world.objects[0], ball(-2.0, 1.0));
    assert_eq!(world.objects[1], ball(-5.0, 1.0));
}

#[test]
fn list_returns_nearest_hit_in_any_order() {
    let r = Ray::new(v3(0.0, 0.0, 0.0), v3(0.0, 0.0, -1.0));
    let (lo, hi) = whole();
    let near_ball = Sphere::new(v3(0.0, 0.0, -2.0), fx(1.0), grey());
    let far_ball = Sphere::new(v3(0.0, 0.0, -6.0), fx(1.0), steel());

    let mut a = HittableList::new();
    a.add(near_ball);
    a.add(far_ball);
    let mut b = HittableList::new();
    b.add(far_ball);
    b.add(near_ball);

    let ha = a.hit(&r, lo, hi).unwrap();
    let hb = b.hit(&r, lo, hi).unwrap();
    assert_eq!(ha.t, fx(1.0));
    assert_eq!(ha.material, grey());
    assert_eq!(ha, hb);
    assert_eq!(ha, near_ball.hit(&r, lo, hi).unwrap());
}

#[test]
fn list_window_applies_to_every_surface() {
    let r = Ray::new(v3(0.0, 0.0, 0.0), v3(0.0, 0.0, -1.0));
    let mut world = HittableList::new();
    world.add(ball(-2.0, 1.0));
    world.add(ball(-6.0, 1.0));
    // the near ball is wholly before the window
    let info = world.hit(&r, fx(4.0), fx(100.0)).unwrap();
    assert_eq!(info.t, fx(5.0));
    assert!(world.hit(&r, fx(8.0), fx(100.0)).is_none());
    assert!(world.hit(&r, fx(0.0), fx(0.5)).is_none());
}

#[test]
fn list_later_surface_wins_a_tie() {
    let r = Ray::new(v3(0.0, 0.0, 0.0), v3(0.0, 0.0, -1.0));
    let (lo, hi) = whole();
    let mut world = HittableList::new();
    world.add(Sphere::new(v3(0.0, 0.0, -2.0), fx(1.0), grey()));
    world.add(Sphere::new(v3(0.0, 0.0, -2.0), fx(1.0), steel()));
    let info = world.hit(&r, lo, hi).unwrap();
    assert_eq!(info.t, fx(1.0));
    assert_eq!(info.material, steel());
}

#[test]
fn list_of_lists_is_a_surface() {
    let r = Ray::new(v3(0.0, 0.0, 0.0), v3(0.0, 0.0, -1.0));
    let (lo, hi) = whole();
    let mut far = HittableList::new();
    far.add(ball(-9.0, 1.0));
    far.add(ball(-6.0, 1.0));
    let mut close = HittableList::new();
    close.add(ball(-3.0, 1.0));
    let mut world = HittableList::new();
    world.add(far);
    world.add(close);
    assert_eq!(world.hit(&r, lo, hi).unwrap().t, fx(2.0));
}

#[test]
fn list_hit_is_no_farther_than_any_surface_hit() {
    let (lo, hi) = whole();
    let mut world = HittableList::new();
    let balls = [
        Sphere::new(v3(0.5, 0.0, -4.0), fx(1.0), grey()),
        Sphere::new(v3(-0.5, 0.2, -2.5), fx(0.75), steel()),
        Sphere::new(v3(0.0, -0.3, -7.0), fx(2.0), grey()),
        Sphere::new(v3(3.0, 3.0, -3.0), fx(0.5), steel()),
    ];
    for b in balls.iter() {
        world.add(*b);
    }
    let rays = [
        Ray::new(v3(0.0, 0.0, 0.0), v3(0.0, 0.0, -1.0)),
        Ray::new(v3(0.0, 0.0, 0.0), v3(0.1, 0.0, -1.0)),
        Ray::new(v3(0.0, 0.0, 0.0), v3(1.0, 1.0, -1.0)),
        Ray::new(v3(0.0, 0.0, 0.0), v3(0.0, 1.0, 0.0)),
    ];
    for r in rays.iter() {
        let best = world.hit(r, lo, hi);
        let mut found = false;
        for b in balls.iter() {
            if let Some(info) = b.hit(r, lo, hi) {
                let best = best.expect("a surface is hit, so the list is");
                assert!(best.t.le(info.t));
                found = found || best == info;
            }
        }
        assert_eq!(best.is_some(), found);
    }
}
