use raytracer::ray::Ray;
use raytracer::scalar::{Scalar, MAX, ONE};
use raytracer::vec3::Vec3;

fn fx(v: f64) -> Scalar {
    Scalar::from_raw((v * 4294967296.0).round() as i64)
}

fn fl(s: Scalar) -> f64 {
    s.to_raw() as f64 / 4294967296.0
}

fn v3(x: f64, y: f64, z: f64) -> Vec3 {
    Vec3::new(fx(x), fx(y), fx(z))
}

fn close(a: Scalar, b: f64) -> bool {
    (fl(a) - b).abs() < 1e-6
}

#[test]
fn scalar_from_int_and_ratio() {
    assert_eq!(Scalar::from_int(3).to_raw(), 3 * ONE);
    assert_eq!(Scalar::from_int(-3).to_raw(), -3 * ONE);
    assert_eq!(Scalar::from_ratio(1, 2).to_raw(), ONE / 2);
    assert_eq!(Scalar::from_ratio(7, 10).to_raw(), 3006477107);
    assert_eq!(Scalar::from_ratio(-7, 10).to_raw(), -3006477107);
    assert_eq!(Scalar::from_ratio(7, -10).to_raw(), -3006477107);
    assert_eq!(Scalar::zero().to_raw(), 0);
    assert_eq!(Scalar::one().to_raw(), ONE);
    assert_eq!(Scalar::max_value().to_raw(), MAX);
}

#[test]
fn scalar_from_int_saturates() {
    assert_eq!(Scalar::from_int(i64::MAX).to_raw(), MAX);
    assert_eq!(Scalar::from_int(i64::MIN).to_raw(), -MAX);
    assert_eq!(Scalar::from_int(1 << 31).to_raw(), MAX);
}

#[test]
fn scalar_minimum_raw_reads_as_lowest() {
    assert_eq!(Scalar::from_raw(i64::MIN).to_raw(), -MAX);
    assert_eq!(Scalar { raw: i64::MIN }.to_raw(), -MAX);
    assert_eq!((-Scalar { raw: i64::MIN }).to_raw(), MAX);
}

#[test]
fn scalar_add_sub_exact_and_saturating() {
    assert_eq!(fx(1.5) + fx(2.25), fx(3.75));
    assert_eq!(fx(1.5) - fx(2.25), fx(-0.75));
    assert_eq!((Scalar::max_value() + Scalar::one()).to_raw(), MAX);
    assert_eq!((-Scalar::max_value() - Scalar::one()).to_raw(), -MAX);
}

#[test]
fn scalar_mul_rounds_toward_zero() {
    assert_eq!(fx(1.5) * fx(2.0), fx(3.0));
    assert_eq!(fx(-1.5) * fx(2.0), fx(-3.0));
    // one raw unit times one half is half a raw unit: toward zero on both sides
    assert_eq!((Scalar::from_raw(1) * fx(0.5)).to_raw(), 0);
    assert_eq!((Scalar::from_raw(-1) * fx(0.5)).to_raw(), 0);
    assert_eq!((Scalar::from_raw(3) * fx(0.5)).to_raw(), 1);
    assert_eq!((Scalar::from_raw(-3) * fx(0.5)).to_raw(), -1);
    assert_eq!((Scalar::from_int(100000) * Scalar::from_int(100000)).to_raw(), MAX);
    assert_eq!((Scalar::from_int(-100000) * Scalar::from_int(100000)).to_raw(), -MAX);
}

#[test]
fn scalar_div_rounds_toward_zero() {
    assert_eq!(fx(3.0) / fx(2.0), fx(1.5));
    assert_eq!(fx(-3.0) / fx(2.0), fx(-1.5));
    assert_eq!((Scalar::one() / Scalar::from_int(3)).to_raw(), 1431655765);
    assert_eq!((-Scalar::one() / Scalar::from_int(3)).to_raw(), -1431655765);
}

#[test]
fn scalar_div_by_zero_saturates() {
    assert_eq!((Scalar::one() / Scalar::zero()).to_raw(), MAX);
    assert_eq!((-Scalar::one() / Scalar::zero()).to_raw(), -MAX);
    assert_eq!((Scalar::zero() / Scalar::zero()).to_raw(), 0);
    assert_eq!(Scalar::from_ratio(5, 0).to_raw(), MAX);
    assert_eq!(Scalar::from_ratio(-5, 0).to_raw(), -MAX);
    assert_eq!(Scalar::from_ratio(0, 0).to_raw(), 0);
}

#[test]
fn scalar_sqrt_exact_and_rounded_down() {
    assert_eq!(fx(4.0).sqrt(), fx(2.0));
    assert_eq!(fx(0.25).sqrt(), fx(0.5));
    assert_eq!(Scalar::zero().sqrt(), Scalar::zero());
    assert_eq!(fx(2.0).sqrt().to_raw(), 6074000999);
    assert_eq!(Scalar::max_value().sqrt().to_raw(), 199032864766430);
}

#[test]
fn scalar_sqrt_of_negative_is_zero() {
    assert_eq!(fx(-1.0).sqrt(), Scalar::zero());
    assert_eq!(Scalar::from_raw(-1).sqrt(), Scalar::zero());
}

#[test]
fn scalar_min_and_comparisons() {
    assert_eq!(fx(1.0).min(fx(2.0)), fx(1.0));
    assert_eq!(fx(2.0).min(fx(1.0)), fx(1.0));
    assert_eq!(fx(-2.0).min(fx(1.0)), fx(-2.0));
    assert!(fx(1.0).lt(fx(2.0)));
    assert!(!fx(2.0).lt(fx(2.0)));
    assert!(fx(2.0).le(fx(2.0)));
    assert!(fx(3.0).gt(fx(2.0)));
    assert!(fx(2.0).ge(fx(2.0)));
    assert!(!fx(1.0).ge(fx(2.0)));
    assert!(Scalar::zero().is_zero());
    assert!(!Scalar::from_raw(1).is_zero());
}

#[test]
fn scalar_powi_repeated_product() {
    assert_eq!(fx(2.0).powi(5), fx(32.0));
    assert_eq!(fx(0.5).powi(5), fx(0.03125));
    assert_eq!(fx(7.0).powi(0), fx(1.0));
    assert_eq!(fx(-2.0).powi(3), fx(-8.0));
}

#[test]
fn vec3_zero_and_new() {
    let z = Vec3::zero();
    assert_eq!(z.x.to_raw(), 0);
    assert_eq!(z.y.to_raw(), 0);
    assert_eq!(z.z.to_raw(), 0);
    let v = Vec3::new(fx(1.0), fx(2.0), fx(3.0));
    assert_eq!(v.x, fx(1.0));
    assert_eq!(v.y, fx(2.0));
    assert_eq!(v.z, fx(3.0));
}

#[test]
fn vec3_add_sub_neg() {
    assert_eq!(v3(1.0, 2.0, 3.0) + v3(0.5, -2.0, 4.0), v3(1.5, 0.0, 7.0));
    assert_eq!(v3(1.0, 2.0, 3.0) - v3(0.5, -2.0, 4.0), v3(0.5, 4.0, -1.0));
    assert_eq!(-v3(1.0, -2.0, 0.0), v3(-1.0, 2.0, 0.0));
}

#[test]
fn vec3_scalar_products_both_orders() {
    assert_eq!(v3(1.0, -2.0, 3.0) * fx(2.0), v3(2.0, -4.0, 6.0));
    assert_eq!(fx(2.0) * v3(1.0, -2.0, 3.0), v3(2.0, -4.0, 6.0));
    assert_eq!(v3(1.0, -2.0, 3.0) * v3(2.0, 0.5, -1.0), v3(2.0, -1.0, -3.0));
}

#[test]
fn vec3_scalar_quotients_both_orders() {
    assert_eq!(v3(1.0, -2.0, 3.0) / fx(2.0), v3(0.5, -1.0, 1.5));
    assert_eq!(fx(2.0) / v3(1.0, -2.0, 4.0), v3(2.0, -1.0, 0.5));
}

#[test]
fn vec3_dot_and_cross() {
    assert_eq!(v3(1.0, 2.0, 3.0).dot(v3(4.0, -5.0, 6.0)), fx(12.0));
    assert_eq!(v3(1.0, 0.0, 0.0).cross(v3(0.0, 1.0, 0.0)), v3(0.0, 0.0, 1.0));
    assert_eq!(v3(0.0, 1.0, 0.0).cross(v3(1.0, 0.0, 0.0)), v3(0.0, 0.0, -1.0));
    assert_eq!(v3(1.0, 2.0, 3.0).cross(v3(4.0, 5.0, 6.0)), v3(-3.0, 6.0, -3.0));
}

#[test]
fn vec3_length_and_length2() {
    assert_eq!(v3(3.0, 4.0, 0.0).length2(), fx(25.0));
    assert_eq!(v3(3.0, 4.0, 0.0).length(), fx(5.0));
    assert_eq!(v3(0.0, 0.0, -2.0).length(), fx(2.0));
    assert_eq!(Vec3::zero().length(), Scalar::zero());
}

#[test]
fn vec3_unit_divides_by_length() {
    assert_eq!(v3(3.0, 4.0, 0.0).unit(), Vec3::new(fx(3.0) / fx(5.0), fx(4.0) / fx(5.0), Scalar::zero()));
    assert_eq!(v3(0.0, 0.0, -7.0).unit(), v3(0.0, 0.0, -1.0));
    let u = v3(1.0, -2.0, 2.5).unit();
    assert!(close(u.length(), 1.0));
}

#[test]
fn vec3_is_zero_means_no_length() {
    assert!(Vec3::zero().is_zero());
    assert!(!v3(0.0, 0.001, 0.0).is_zero());
    // components below 2^-16 square to nothing
    let tiny = Vec3::new(Scalar::from_raw(65535), Scalar::from_raw(-65535), Scalar::from_raw(1));
    assert!(tiny.is_zero());
    let small = Vec3::new(Scalar::from_raw(65536), Scalar::zero(), Scalar::zero());
    assert!(!small.is_zero());
}

#[test]
fn ray_at_is_origin_plus_t_direction() {
    let r = Ray::new(v3(1.0, 2.0, 3.0), v3(0.0, -1.0, 2.0));
    assert_eq!(r.origin(), v3(1.0, 2.0, 3.0));
    assert_eq!(r.direction(), v3(0.0, -1.0, 2.0));
    assert_eq!(r.at(fx(0.0)), v3(1.0, 2.0, 3.0));
    assert_eq!(r.at(fx(2.0)), v3(1.0, 0.0, 7.0));
    assert_eq!(r.at(fx(-1.5)), v3(1.0, 3.5, 0.0));
}
