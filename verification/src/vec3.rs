//! Three-component vectors, also used as points and as colours.

use crate::scalar::{lemma_add_neg, lemma_mul_neg, magnitude, Scalar, ONE};
use std::ops::Neg;
use vstd::prelude::*;

verus! {

/// A colour: red, green and blue in `x`, `y` and `z`.
pub type Color = Vec3;

/// A point in space.
pub type Point3 = Vec3;

/// A vector of three scalars. A pure value; no invariant.
#[derive(Clone, Copy, PartialEq, Eq, Structural, Debug)]
pub struct Vec3 {
    pub x: Scalar,
    pub y: Scalar,
    pub z: Scalar,
}

impl Vec3 {
    /// The zero vector.
    pub open spec fn spec_zero() -> Vec3 {
        Vec3 { x: Scalar::of(0), y: Scalar::of(0), z: Scalar::of(0) }
    }

    /// Component-wise sum.
    pub open spec fn spec_add(self, rhs: Vec3) -> Vec3 {
        Vec3 {
            x: self.x.spec_add(rhs.x),
            y: self.y.spec_add(rhs.y),
            z: self.z.spec_add(rhs.z),
        }
    }

    /// Component-wise difference.
    pub open spec fn spec_sub(self, rhs: Vec3) -> Vec3 {
        Vec3 {
            x: self.x.spec_sub(rhs.x),
            y: self.y.spec_sub(rhs.y),
            z: self.z.spec_sub(rhs.z),
        }
    }

    /// Component-wise negation.
    pub open spec fn spec_neg(self) -> Vec3 {
        Vec3 { x: self.x.spec_neg(), y: self.y.spec_neg(), z: self.z.spec_neg() }
    }

    /// Each component multiplied by `k`.
    pub open spec fn spec_scale(self, k: Scalar) -> Vec3 {
        Vec3 { x: self.x.spec_mul(k), y: self.y.spec_mul(k), z: self.z.spec_mul(k) }
    }

    /// Each component divided by `k`.
    pub open spec fn spec_shrink(self, k: Scalar) -> Vec3 {
        Vec3 { x: self.x.spec_div(k), y: self.y.spec_div(k), z: self.z.spec_div(k) }
    }

    /// `k` divided by each component.
    pub open spec fn spec_recip(self, k: Scalar) -> Vec3 {
        Vec3 { x: k.spec_div(self.x), y: k.spec_div(self.y), z: k.spec_div(self.z) }
    }

    /// Component-wise product.
    pub open spec fn spec_mul(self, rhs: Vec3) -> Vec3 {
        Vec3 {
            x: self.x.spec_mul(rhs.x),
            y: self.y.spec_mul(rhs.y),
            z: self.z.spec_mul(rhs.z),
        }
    }

    /// Dot product: the three products summed from the left.
    pub open spec fn spec_dot(self, rhs: Vec3) -> Scalar {
        self.x.spec_mul(rhs.x).spec_add(self.y.spec_mul(rhs.y)).spec_add(self.z.spec_mul(rhs.z))
    }

    /// Squared length: the dot product of the vector with itself.
    pub open spec fn spec_length2(self) -> Scalar {
        self.spec_dot(self)
    }

    /// Length: the square root of the squared length.
    pub open spec fn spec_length(self) -> Scalar {
        self.spec_length2().spec_sqrt()
    }

    /// Cross product.
    pub open spec fn spec_cross(self, rhs: Vec3) -> Vec3 {
        Vec3 {
            x: self.y.spec_mul(rhs.z).spec_sub(self.z.spec_mul(rhs.y)),
            y: self.z.spec_mul(rhs.x).spec_sub(self.x.spec_mul(rhs.z)),
            z: self.x.spec_mul(rhs.y).spec_sub(self.y.spec_mul(rhs.x)),
        }
    }

    /// Whether the vector has no length in this arithmetic, so that it has
    /// no direction.
    pub open spec fn spec_is_zero(self) -> bool {
        self.spec_length()@ == 0
    }

    /// The vector divided by its length.
    pub open spec fn spec_unit(self) -> Vec3 {
        self.spec_shrink(self.spec_length())
    }

    /// The zero vector.
    pub fn zero() -> (r: Vec3)
        ensures
            r == Vec3::spec_zero(),
    {
        Vec3 { x: Scalar::zero(), y: Scalar::zero(), z: Scalar::zero() }
    }

    /// The vector with the given components.
    pub fn new(x: Scalar, y: Scalar, z: Scalar) -> (r: Vec3)
        ensures
            r == (Vec3 { x, y, z }),
    {
        Vec3 { x, y, z }
    }

    /// Squared length.
    pub fn length2(self) -> (r: Scalar)
        ensures
            r == self.spec_length2(),
            r@ >= 0,
    {
        proof {
            lemma_length2_nonnegative(self);
        }
        self.x * self.x + self.y * self.y + self.z * self.z
    }

    /// Length.
    pub fn length(self) -> (r: Scalar)
        ensures
            r == self.spec_length(),
            r@ >= 0,
    {
        self.length2().sqrt()
    }

    /// Dot product.
    pub fn dot(self, other: Vec3) -> (r: Scalar)
        ensures
            r == self.spec_dot(other),
    {
        self.x * other.x + self.y * other.y + self.z * other.z
    }

    /// Cross product.
    pub fn cross(self, other: Vec3) -> (r: Vec3)
        ensures
            r == self.spec_cross(other),
    {
        Vec3 {
            x: self.y * other.z - self.z * other.y,
            y: self.z * other.x - self.x * other.z,
            z: self.x * other.y - self.y * other.x,
        }
    }

    /// Whether the vector has no length, and so cannot be normalised.
    pub fn is_zero(self) -> (b: bool)
        ensures
            b == self.spec_is_zero(),
    {
        self.length().is_zero()
    }

    /// The vector divided by its length. A vector without length has no
    /// direction: the caller guards against it.
    pub fn unit(self) -> (r: Vec3)
        requires
            !self.spec_is_zero(),
        ensures
            r == self.spec_unit(),
    {
        self / self.length()
    }
}

/// A squared length is never negative.
pub proof fn lemma_length2_nonnegative(v: Vec3)
    ensures
        v.spec_length2()@ >= 0,
{
    lemma_square_nonnegative(v.x);
    lemma_square_nonnegative(v.y);
    lemma_square_nonnegative(v.z);
}

/// The product of a scalar with itself is never negative.
pub proof fn lemma_square_nonnegative(a: Scalar)
    ensures
        a.spec_mul(a)@ >= 0,
{
    assert(a@ * a@ >= 0) by (nonlinear_arith);
    assert(magnitude(a@ * a@) / (ONE as int) >= 0);
}

/// The dot product with a negated vector is the negated dot product,
/// exactly.
pub proof fn lemma_dot_neg(d: Vec3, n: Vec3)
    ensures
        d.spec_dot(n.spec_neg())@ == -d.spec_dot(n)@,
{
    lemma_mul_neg(d.x, n.x);
    lemma_mul_neg(d.y, n.y);
    lemma_mul_neg(d.z, n.z);
    let neg = n.spec_neg();
    lemma_add_neg(
        d.x.spec_mul(n.x),
        d.y.spec_mul(n.y),
        d.x.spec_mul(neg.x),
        d.y.spec_mul(neg.y),
    );
    lemma_add_neg(
        d.x.spec_mul(n.x).spec_add(d.y.spec_mul(n.y)),
        d.z.spec_mul(n.z),
        d.x.spec_mul(neg.x).spec_add(d.y.spec_mul(neg.y)),
        d.z.spec_mul(neg.z),
    );
}

impl vstd::std_specs::ops::AddSpecImpl for Vec3 {
    open spec fn obeys_add_spec() -> bool {
        true
    }

    open spec fn add_req(self, rhs: Vec3) -> bool {
        true
    }

    open spec fn add_spec(self, rhs: Vec3) -> Vec3 {
        self.spec_add(rhs)
    }
}

impl std::ops::Add for Vec3 {
    type Output = Vec3;

    fn add(self, rhs: Vec3) -> (r: Vec3) {
        Vec3 { x: self.x + rhs.x, y: self.y + rhs.y, z: self.z + rhs.z }
    }
}

impl vstd::std_specs::ops::SubSpecImpl for Vec3 {
    open spec fn obeys_sub_spec() -> bool {
        true
    }

    open spec fn sub_req(self, rhs: Vec3) -> bool {
        true
    }

    open spec fn sub_spec(self, rhs: Vec3) -> Vec3 {
        self.spec_sub(rhs)
    }
}

impl std::ops::Sub for Vec3 {
    type Output = Vec3;

    fn sub(self, rhs: Vec3) -> (r: Vec3) {
        Vec3 { x: self.x - rhs.x, y: self.y - rhs.y, z: self.z - rhs.z }
    }
}

impl vstd::std_specs::ops::NegSpecImpl for Vec3 {
    open spec fn obeys_neg_spec() -> bool {
        true
    }

    open spec fn neg_req(self) -> bool {
        true
    }

    open spec fn neg_spec(self) -> Vec3 {
        self.spec_neg()
    }
}

impl std::ops::Neg for Vec3 {
    type Output = Vec3;

    fn neg(self) -> (r: Vec3) {
        Vec3 { x: self.x.neg(), y: self.y.neg(), z: self.z.neg() }
    }
}

impl vstd::std_specs::ops::MulSpecImpl<Scalar> for Vec3 {
    open spec fn obeys_mul_spec() -> bool {
        true
    }

    open spec fn mul_req(self, rhs: Scalar) -> bool {
        true
    }

    open spec fn mul_spec(self, rhs: Scalar) -> Vec3 {
        self.spec_scale(rhs)
    }
}

impl std::ops::Mul<Scalar> for Vec3 {
    type Output = Vec3;

    fn mul(self, rhs: Scalar) -> (r: Vec3) {
        Vec3 { x: self.x * rhs, y: self.y * rhs, z: self.z * rhs }
    }
}

impl vstd::std_specs::ops::MulSpecImpl<Vec3> for Scalar {
    open spec fn obeys_mul_spec() -> bool {
        true
    }

    open spec fn mul_req(self, rhs: Vec3) -> bool {
        true
    }

    open spec fn mul_spec(self, rhs: Vec3) -> Vec3 {
        rhs.spec_scale(self)
    }
}

impl std::ops::Mul<Vec3> for Scalar {
    type Output = Vec3;

    fn mul(self, rhs: Vec3) -> (r: Vec3) {
        Vec3 { x: rhs.x * self, y: rhs.y * self, z: rhs.z * self }
    }
}

impl vstd::std_specs::ops::MulSpecImpl<Vec3> for Vec3 {
    open spec fn obeys_mul_spec() -> bool {
        true
    }

    open spec fn mul_req(self, rhs: Vec3) -> bool {
        true
    }

    open spec fn mul_spec(self, rhs: Vec3) -> Vec3 {
        self.spec_mul(rhs)
    }
}

impl std::ops::Mul<Vec3> for Vec3 {
    type Output = Vec3;

    fn mul(self, rhs: Vec3) -> (r: Vec3) {
        Vec3 { x: self.x * rhs.x, y: self.y * rhs.y, z: self.z * rhs.z }
    }
}

impl vstd::std_specs::ops::DivSpecImpl<Scalar> for Vec3 {
    open spec fn obeys_div_spec() -> bool {
        true
    }

    open spec fn div_req(self, rhs: Scalar) -> bool {
        true
    }

    open spec fn div_spec(self, rhs: Scalar) -> Vec3 {
        self.spec_shrink(rhs)
    }
}

impl std::ops::Div<Scalar> for Vec3 {
    type Output = Vec3;

    fn div(self, rhs: Scalar) -> (r: Vec3) {
        Vec3 { x: self.x / rhs, y: self.y / rhs, z: self.z / rhs }
    }
}

impl vstd::std_specs::ops::DivSpecImpl<Vec3> for Scalar {
    open spec fn obeys_div_spec() -> bool {
        true
    }

    open spec fn div_req(self, rhs: Vec3) -> bool {
        true
    }

    open spec fn div_spec(self, rhs: Vec3) -> Vec3 {
        rhs.spec_recip(self)
    }
}

impl std::ops::Div<Vec3> for Scalar {
    type Output = Vec3;

    fn div(self, rhs: Vec3) -> (r: Vec3) {
        Vec3 { x: self / rhs.x, y: self / rhs.y, z: self / rhs.z }
    }
}

} // verus!
