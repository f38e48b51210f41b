//! Random sampling and the reflection and refraction formulas.

use crate::scalar::{lemma_int_sqrt_unique, trunc_div, Scalar, ONE};
use crate::vec3::{Point3, Vec3};
use rand::Rng;
use std::ops::Neg;
use vstd::prelude::*;

verus! {

/// How many candidates a rejection sampler draws before it settles for the
/// centre of the region.
pub const MAX_REJECTIONS: u32 = 64;

/// The thread-local random number generator of `rand`, opaque to the
/// verifier.
#[verifier::external_type_specification]
#[verifier::external_body]
pub struct ExThreadRng(rand::rngs::ThreadRng);

/// `rand::thread_rng` hands out the calling thread's generator, seeded by
/// the system. Nothing is claimed of it.
pub assume_specification[ rand::thread_rng ]() -> (rng: rand::rngs::ThreadRng);

/// `rand::Rng::gen_range` on the half-open range `low..high` of `i64`: the
/// number it draws lies in the range. It is not claimed to be the same from
/// one call to the next. The outside function panics on an empty range.
#[verifier::external_body]
fn gen_range(rng: &mut rand::rngs::ThreadRng, low: i64, high: i64) -> (r: i64)
    requires
        low < high,
    ensures
        low <= r < high,
{
    rng.gen_range(low..high)
}

/// Whether `p` is a point that the sampler of the unit ball may return:
/// each coordinate in `[-1, 1)` and the squared length below one.
pub open spec fn in_unit_ball(p: Vec3) -> bool {
    &&& -ONE <= p.x@ < ONE
    &&& -ONE <= p.y@ < ONE
    &&& -ONE <= p.z@ < ONE
    &&& p.spec_length2()@ < ONE
}

/// Whether `p` is a point that the sampler of the unit disk may return: a
/// point of the unit ball in the plane `z = 0`.
pub open spec fn in_unit_disk(p: Vec3) -> bool {
    in_unit_ball(p) && p.z@ == 0
}

/// Whether `u` is a vector that the sampler of directions may return: the
/// normalisation of a point of the unit ball that has a direction.
pub open spec fn is_unit_sample(u: Vec3) -> bool {
    exists|p: Vec3| in_unit_ball(p) && !p.spec_is_zero() && u == #[trigger] p.spec_unit()
}

/// Mirror image of `v` about the normal `n`: `v - 2 (v . n) n`.
pub open spec fn spec_reflect(v: Vec3, n: Vec3) -> Vec3 {
    v.spec_sub(n.spec_scale(Scalar::of(2 * ONE).spec_mul(v.spec_dot(n))))
}

/// Direction of `v` after it crosses a surface with normal `n` and ratio of
/// refraction indices `etai_over_etat`:
/// `perp = eta (v + cos n)`, `parallel = -sqrt(1 - |perp|^2) n`, with
/// `cos = min(n . (-v), 1)`.
pub open spec fn spec_refract(v: Vec3, n: Vec3, etai_over_etat: Scalar) -> Vec3 {
    let cos_theta = n.spec_dot(v.spec_neg()).spec_min(Scalar::of(ONE as int));
    let out_perp = v.spec_add(n.spec_scale(cos_theta)).spec_scale(etai_over_etat);
    let out_parallel = n.spec_scale(
        Scalar::of(ONE as int).spec_sub(out_perp.spec_length2()).spec_sqrt().spec_neg(),
    );
    out_perp.spec_add(out_parallel)
}

/// A scalar in `[lo, hi)`, drawn from `rng`.
fn random_between(rng: &mut rand::rngs::ThreadRng, lo: i64, hi: i64) -> (r: Scalar)
    requires
        i64::MIN < lo < hi,
    ensures
        lo <= r@ < hi,
        r.raw == r@,
{
    Scalar::from_raw(gen_range(rng, lo, hi))
}

/// A random scalar in `[0, 1)`.
pub fn random_double() -> (r: Scalar)
    ensures
        0 <= r@ < ONE,
{
    let mut rng = rand::thread_rng();
    random_between(&mut rng, 0, ONE)
}

/// A random direction: a point of the unit ball, normalised. In the rare
/// case that the point drawn has no direction, the first axis stands in.
pub fn random_unit_vector() -> (u: Vec3)
    ensures
        is_unit_sample(u),
{
    let p = random_point_in_sphere();
    if p.is_zero() {
        proof {
            lemma_first_axis_is_unit_sample();
        }
        Vec3::new(Scalar::one(), Scalar::zero(), Scalar::zero())
    } else {
        p.unit()
    }
}

/// The first axis is the normalisation of the point `(1/2, 0, 0)`.
proof fn lemma_first_axis_is_unit_sample()
    ensures
        is_unit_sample(Vec3 { x: Scalar::of(ONE as int), y: Scalar::of(0), z: Scalar::of(0) }),
{
    let half = Scalar::of(ONE / 2);
    let p = Vec3 { x: half, y: Scalar::of(0), z: Scalar::of(0) };
    let zero = Scalar::of(0);
    assert(half@ == 0x8000_0000);
    assert(half@ * half@ == 0x4000_0000_0000_0000) by (nonlinear_arith)
        requires
            half@ == 0x8000_0000,
    ;
    assert(ONE == 0x1_0000_0000);
    assert(0x4000_0000_0000_0000int / 0x1_0000_0000int == 0x4000_0000);
    assert(trunc_div(0x4000_0000_0000_0000, ONE as int) == 0x4000_0000);
    assert(half.spec_mul(half)@ == 0x4000_0000);
    assert(zero@ * zero@ == 0) by (nonlinear_arith)
        requires
            zero@ == 0,
    ;
    assert(zero.spec_mul(zero)@ == 0);
    assert(p.spec_length2()@ == ONE / 4);
    assert(0x8000_0000int * 0x8000_0000int == 0x4000_0000_0000_0000);
    assert((ONE / 4) * ONE == 0x4000_0000_0000_0000);
    assert(0x8000_0001int * 0x8000_0001int > 0x4000_0000_0000_0000);
    lemma_int_sqrt_unique(0x8000_0000, (ONE / 4) * ONE);
    assert(p.spec_length()@ == ONE / 2);
    assert(half@ * ONE == 0x8000_0000_0000_0000);
    assert(zero@ * ONE == 0);
    assert(half.spec_div(p.spec_length())@ == ONE);
    assert(zero.spec_div(p.spec_length())@ == 0);
    assert(0x8000_0000_0000_0000int / 0x8000_0000int == ONE);
    assert(p.spec_unit() == Vec3 { x: Scalar::of(ONE as int), y: Scalar::of(0), z: Scalar::of(0) });
}

/// A random point of the unit ball, by rejection: points of the cube
/// `[-1, 1)^3` are drawn until one has squared length below one. After
/// `MAX_REJECTIONS` candidates the centre is returned.
pub fn random_point_in_sphere() -> (p: Point3)
    ensures
        in_unit_ball(p),
{
    let mut rng = rand::thread_rng();
    let mut k: u32 = 0;
    while k < MAX_REJECTIONS
        invariant
            k <= MAX_REJECTIONS,
        decreases MAX_REJECTIONS - k,
    {
        let p = Point3::new(
            random_between(&mut rng, -ONE, ONE),
            random_between(&mut rng, -ONE, ONE),
            random_between(&mut rng, -ONE, ONE),
        );

        if p.length2().lt(Scalar::one()) {
            return p;
        }
        k = k + 1;
    }
    Vec3::zero()
}

/// A random point of the unit disk in the plane `z = 0`, by rejection:
/// points of the square `[-1, 1)^2` are drawn until one has squared length
/// below one. After `MAX_REJECTIONS` candidates the centre is returned.
pub fn random_point_in_disk() -> (p: Point3)
    ensures
        in_unit_disk(p),
{
    let mut rng = rand::thread_rng();
    let mut k: u32 = 0;
    while k < MAX_REJECTIONS
        invariant
            k <= MAX_REJECTIONS,
        decreases MAX_REJECTIONS - k,
    {
        let p = Point3::new(
            random_between(&mut rng, -ONE, ONE),
            random_between(&mut rng, -ONE, ONE),
            Scalar::zero(),
        );

        if p.length2().lt(Scalar::one()) {
            return p;
        }
        k = k + 1;
    }
    Vec3::zero()
}

/// Mirror image of `v` about the normal `n`.
pub fn reflect(v: Vec3, n: Vec3) -> (r: Vec3)
    ensures
        r == spec_reflect(v, n),
{
    v - Scalar::from_int(2) * v.dot(n) * n
}

/// Direction of `v` after refraction at a surface with normal `n`.
pub fn refract(v: Vec3, n: Vec3, etai_over_etat: Scalar) -> (r: Vec3)
    ensures
        r == spec_refract(v, n, etai_over_etat),
{
    let cos_theta = n.dot(v.neg()).min(Scalar::one());
    let out_perp = etai_over_etat * (v + cos_theta * n);
    let out_parallel = (Scalar::one() - out_perp.length2()).sqrt().neg() * n;

    out_perp + out_parallel
}

} // verus!
