use vstd::prelude::*;

use crate::num::div_i64;
use crate::num::div_trunc;
use crate::num::in_i64;
use crate::num::lemma_div_trunc_mul_cancel;
use crate::num::sample_inclusive;
use crate::range_extension::Interval;
use crate::vec2::Vec2;
use crate::vec2::Vec2View;
use crate::vec4::Vec4;
use crate::vec4::Vec4View;

verus! {

/// A 3-vector with exact integer coordinates; the same type also serves
/// as a point or a linear-space RGB color, depending on calling context.
#[derive(Clone, Copy, Debug, PartialEq, Eq, Structural)]
pub struct Vec3 {
    pub x: i64,
    pub y: i64,
    pub z: i64,
}

/// A point in space, represented by the same exact coordinates.
pub type Point3 = Vec3;

/// A linear-space RGB color, represented by the same exact coordinates.
pub type ColorRGB = Vec3;

/// The mathematical value of a `Vec3`: a triple of unbounded integers.
pub struct Vec3View {
    pub x: int,
    pub y: int,
    pub z: int,
}

impl View for Vec3 {
    type V = Vec3View;

    open spec fn view(&self) -> Vec3View {
        Vec3View { x: self.x as int, y: self.y as int, z: self.z as int }
    }
}

impl Vec3View {
    pub open spec fn add(self, rhs: Self) -> Self {
        Vec3View { x: self.x + rhs.x, y: self.y + rhs.y, z: self.z + rhs.z }
    }

    pub open spec fn can_add(self, rhs: Self) -> bool {
        in_i64(self.x + rhs.x) && in_i64(self.y + rhs.y) && in_i64(self.z + rhs.z)
    }

    pub open spec fn sub(self, rhs: Self) -> Self {
        Vec3View { x: self.x - rhs.x, y: self.y - rhs.y, z: self.z - rhs.z }
    }

    pub open spec fn can_sub(self, rhs: Self) -> bool {
        in_i64(self.x - rhs.x) && in_i64(self.y - rhs.y) && in_i64(self.z - rhs.z)
    }

    pub open spec fn neg(self) -> Self {
        Vec3View { x: -self.x, y: -self.y, z: -self.z }
    }

    pub open spec fn can_neg(self) -> bool {
        in_i64(-self.x) && in_i64(-self.y) && in_i64(-self.z)
    }

    pub open spec fn mul(self, rhs: Self) -> Self {
        Vec3View { x: self.x * rhs.x, y: self.y * rhs.y, z: self.z * rhs.z }
    }

    pub open spec fn can_mul(self, rhs: Self) -> bool {
        in_i64(self.x * rhs.x) && in_i64(self.y * rhs.y) && in_i64(self.z * rhs.z)
    }

    pub open spec fn scale(self, k: int) -> Self {
        Vec3View { x: self.x * k, y: self.y * k, z: self.z * k }
    }

    pub open spec fn can_scale(self, k: int) -> bool {
        in_i64(self.x * k) && in_i64(self.y * k) && in_i64(self.z * k)
    }

    pub open spec fn div(self, rhs: Self) -> Self {
        Vec3View {
            x: div_trunc(self.x, rhs.x),
            y: div_trunc(self.y, rhs.y),
            z: div_trunc(self.z, rhs.z),
        }
    }

    pub open spec fn can_div(self, rhs: Self) -> bool {
        rhs.x != 0 && rhs.y != 0 && rhs.z != 0 && in_i64(div_trunc(self.x, rhs.x)) && in_i64(
            div_trunc(self.y, rhs.y),
        ) && in_i64(div_trunc(self.z, rhs.z))
    }

    pub open spec fn div_scalar(self, k: int) -> Self {
        Vec3View { x: div_trunc(self.x, k), y: div_trunc(self.y, k), z: div_trunc(self.z, k) }
    }

    pub open spec fn can_div_scalar(self, k: int) -> bool {
        k != 0 && in_i64(div_trunc(self.x, k)) && in_i64(div_trunc(self.y, k)) && in_i64(
            div_trunc(self.z, k),
        )
    }

    pub open spec fn dot(self, rhs: Self) -> int {
        self.x * rhs.x + self.y * rhs.y + self.z * rhs.z
    }

    pub open spec fn can_dot(self, rhs: Self) -> bool {
        in_i64(self.x * rhs.x) && in_i64(self.y * rhs.y) && in_i64(self.z * rhs.z) && in_i64(
            self.x * rhs.x + self.y * rhs.y,
        ) && in_i64(self.dot(rhs))
    }

    pub open spec fn length_squared(self) -> int {
        self.dot(self)
    }

    /// The right-handed cross product.
    pub open spec fn cross(self, rhs: Self) -> Self {
        Vec3View {
            x: self.y * rhs.z - self.z * rhs.y,
            y: self.z * rhs.x - self.x * rhs.z,
            z: self.x * rhs.y - self.y * rhs.x,
        }
    }

    pub open spec fn can_cross(self, rhs: Self) -> bool {
        in_i64(self.y * rhs.z) && in_i64(self.z * rhs.y) && in_i64(self.z * rhs.x) && in_i64(
            self.x * rhs.z,
        ) && in_i64(self.x * rhs.y) && in_i64(self.y * rhs.x) && in_i64(self.y * rhs.z - self.z * rhs.y)
            && in_i64(self.z * rhs.x - self.x * rhs.z) && in_i64(self.x * rhs.y - self.y * rhs.x)
    }

    /// Specular reflection about `normal`: self - 2 (self . normal) normal.
    pub open spec fn reflect(self, normal: Self) -> Self {
        self.sub(normal.scale(2 * self.dot(normal)))
    }

    pub open spec fn can_reflect(self, normal: Self) -> bool {
        self.can_dot(normal) && in_i64(2 * self.dot(normal)) && normal.can_scale(
            2 * self.dot(normal),
        ) && self.can_sub(normal.scale(2 * self.dot(normal)))
    }

    pub open spec fn near_zero(self) -> bool {
        self.x == 0 && self.y == 0 && self.z == 0
    }
}

impl Vec3 {
    /// The unit vector pointing up: exact, not computed.
    pub fn up() -> (r: Self)
        ensures
            r@ == (Vec3View { x: 0, y: 1, z: 0 }),
    {
        Vec3 { x: 0, y: 1, z: 0 }
    }

    /// The unit vector pointing down: exact, not computed.
    pub fn down() -> (r: Self)
        ensures
            r@ == (Vec3View { x: 0, y: -1, z: 0 }),
    {
        Vec3 { x: 0, y: -1, z: 0 }
    }

    /// The unit vector pointing left: exact, not computed.
    pub fn left() -> (r: Self)
        ensures
            r@ == (Vec3View { x: -1, y: 0, z: 0 }),
    {
        Vec3 { x: -1, y: 0, z: 0 }
    }

    /// The unit vector pointing right: exact, not computed.
    pub fn right() -> (r: Self)
        ensures
            r@ == (Vec3View { x: 1, y: 0, z: 0 }),
    {
        Vec3 { x: 1, y: 0, z: 0 }
    }

    /// The zero vector.
    pub fn zero() -> (r: Self)
        ensures
            r@ == (Vec3View { x: 0, y: 0, z: 0 }),
    {
        Vec3 { x: 0, y: 0, z: 0 }
    }

    /// The unit vector pointing forward: exact, not computed.
    pub fn forward() -> (r: Self)
        ensures
            r@ == (Vec3View { x: 0, y: 0, z: 1 }),
    {
        Vec3 { x: 0, y: 0, z: 1 }
    }

    /// The unit vector pointing backward: exact, not computed.
    pub fn backward() -> (r: Self)
        ensures
            r@ == (Vec3View { x: 0, y: 0, z: -1 }),
    {
        Vec3 { x: 0, y: 0, z: -1 }
    }

    pub fn new(x: i64, y: i64, z: i64) -> (r: Self)
        ensures
            r@ == (Vec3View { x: x as int, y: y as int, z: z as int }),
    {
        Vec3 { x, y, z }
    }

    pub fn splat(val: i64) -> (r: Self)
        ensures
            r@ == (Vec3View { x: val as int, y: val as int, z: val as int }),
    {
        Vec3 { x: val, y: val, z: val }
    }

    /// The squared Euclidean norm; exact, and the form to compare against
    /// a threshold, since no square root is taken.
    pub fn length_squared(self) -> (r: i64)
        requires
            self@.can_dot(self@),
        ensures
            r == self@.length_squared(),
    {
        self.x * self.x + self.y * self.y + self.z * self.z
    }

    /// The standard inner product.
    pub fn dot(self, rhs: Self) -> (r: i64)
        requires
            self@.can_dot(rhs@),
        ensures
            r == self@.dot(rhs@),
    {
        self.x * rhs.x + self.y * rhs.y + self.z * rhs.z
    }

    /// The right-handed cross product
    /// (y1 z2 - z1 y2, z1 x2 - x1 z2, x1 y2 - y1 x2).
    pub fn cross(self, rhs: Self) -> (r: Self)
        requires
            self@.can_cross(rhs@),
        ensures
            r@ == self@.cross(rhs@),
    {
        Vec3 {
            x: self.y * rhs.z - self.z * rhs.y,
            y: self.z * rhs.x - self.x * rhs.z,
            z: self.x * rhs.y - self.y * rhs.x,
        }
    }

    /// Drops the z-coordinate, producing the 2-vector (x, y).
    pub fn truncate(self) -> (r: Vec2)
        ensures
            r@ == (Vec2View { x: self@.x, y: self@.y }),
    {
        Vec2::new(self.x, self.y)
    }

    /// Appends a w-coordinate, producing the 4-vector (x, y, z, w).
    pub fn extend(self, w: i64) -> (r: Vec4)
        ensures
            r@ == (Vec4View { x: self@.x, y: self@.y, z: self@.z, w: w as int }),
    {
        Vec4::new(self.x, self.y, self.z, w)
    }

    /// Specular reflection: self - 2 (self . normal) normal. For geometric
    /// correctness the caller supplies a unit-scale normal; this is not
    /// enforced, and a skewed normal yields a well-defined skewed result.
    pub fn reflect(self, normal: Self) -> (r: Self)
        requires
            self@.can_reflect(normal@),
        ensures
            r@ == self@.reflect(normal@),
    {
        let d: i64 = self.dot(normal);
        let two_d: i64 = 2 * d;
        self.sub(normal.scale(two_d))
    }

    /// In exact arithmetic the only negligible coordinate is zero, so a
    /// vector is near zero exactly when every coordinate is zero.
    pub fn near_zero(self) -> (r: bool)
        ensures
            r == self@.near_zero(),
    {
        self.x == 0 && self.y == 0 && self.z == 0
    }

    /// Each coordinate drawn independently and uniformly from the same
    /// inclusive interval; only membership in the interval is promised of
    /// any one draw.
    pub fn random_range(range: Interval) -> (r: Self)
        requires
            range.start <= range.end,
        ensures
            range@.start <= r@.x <= range@.end,
            range@.start <= r@.y <= range@.end,
            range@.start <= r@.z <= range@.end,
    {
        Vec3 {
            x: sample_inclusive(range.start, range.end),
            y: sample_inclusive(range.start, range.end),
            z: sample_inclusive(range.start, range.end),
        }
    }

    /// Componentwise addition.
    pub fn add(self, rhs: Self) -> (r: Self)
        requires
            self@.can_add(rhs@),
        ensures
            r@ == self@.add(rhs@),
    {
        Vec3 { x: self.x + rhs.x, y: self.y + rhs.y, z: self.z + rhs.z }
    }

    /// In-place componentwise addition.
    pub fn add_assign(&mut self, rhs: Self)
        requires
            old(self)@.can_add(rhs@),
        ensures
            final(self)@ == old(self)@.add(rhs@),
    {
        *self = self.add(rhs);
    }

    /// Componentwise subtraction.
    pub fn sub(self, rhs: Self) -> (r: Self)
        requires
            self@.can_sub(rhs@),
        ensures
            r@ == self@.sub(rhs@),
    {
        Vec3 { x: self.x - rhs.x, y: self.y - rhs.y, z: self.z - rhs.z }
    }

    /// In-place componentwise subtraction.
    pub fn sub_assign(&mut self, rhs: Self)
        requires
            old(self)@.can_sub(rhs@),
        ensures
            final(self)@ == old(self)@.sub(rhs@),
    {
        *self = self.sub(rhs);
    }

    /// Componentwise negation.
    pub fn neg(self) -> (r: Self)
        requires
            self@.can_neg(),
        ensures
            r@ == self@.neg(),
    {
        Vec3 { x: -self.x, y: -self.y, z: -self.z }
    }

    /// Componentwise multiplication.
    pub fn mul(self, rhs: Self) -> (r: Self)
        requires
            self@.can_mul(rhs@),
        ensures
            r@ == self@.mul(rhs@),
    {
        Vec3 { x: self.x * rhs.x, y: self.y * rhs.y, z: self.z * rhs.z }
    }

    /// In-place componentwise multiplication.
    pub fn mul_assign(&mut self, rhs: Self)
        requires
            old(self)@.can_mul(rhs@),
        ensures
            final(self)@ == old(self)@.mul(rhs@),
    {
        *self = self.mul(rhs);
    }

    /// Multiplication by a scalar. A scalar on the left multiplies the
    /// same way: scalar multiplication commutes.
    pub fn scale(self, k: i64) -> (r: Self)
        requires
            self@.can_scale(k as int),
        ensures
            r@ == self@.scale(k as int),
    {
        Vec3 { x: self.x * k, y: self.y * k, z: self.z * k }
    }

    /// In-place multiplication by a scalar.
    pub fn scale_assign(&mut self, k: i64)
        requires
            old(self)@.can_scale(k as int),
        ensures
            final(self)@ == old(self)@.scale(k as int),
    {
        *self = self.scale(k);
    }

    /// Componentwise division (truncating, exact on exact multiples).
    pub fn div(self, rhs: Self) -> (r: Self)
        requires
            self@.can_div(rhs@),
        ensures
            r@ == self@.div(rhs@),
    {
        Vec3 { x: div_i64(self.x, rhs.x), y: div_i64(self.y, rhs.y), z: div_i64(self.z, rhs.z) }
    }

    /// In-place componentwise division.
    pub fn div_assign(&mut self, rhs: Self)
        requires
            old(self)@.can_div(rhs@),
        ensures
            final(self)@ == old(self)@.div(rhs@),
    {
        *self = self.div(rhs);
    }

    /// Division by a scalar.
    pub fn div_scalar(self, k: i64) -> (r: Self)
        requires
            self@.can_div_scalar(k as int),
        ensures
            r@ == self@.div_scalar(k as int),
    {
        Vec3 { x: div_i64(self.x, k), y: div_i64(self.y, k), z: div_i64(self.z, k) }
    }

    /// In-place division by a scalar.
    pub fn div_scalar_assign(&mut self, k: i64)
        requires
            old(self)@.can_div_scalar(k as int),
        ensures
            final(self)@ == old(self)@.div_scalar(k as int),
    {
        *self = self.div_scalar(k);
    }
}

/// Adding a vector and subtracting it again returns the original vector:
/// `add` and `sub` are mutual inverses.
pub proof fn lemma_add_sub_cancel3(v: Vec3View, w: Vec3View)
    ensures
        v.add(w).sub(w) == v,
{
}

/// Scaling by a nonzero scalar and dividing by it again returns the
/// original vector.
pub proof fn lemma_scale_div_cancel3(v: Vec3View, k: int)
    requires
        k != 0,
    ensures
        v.scale(k).div_scalar(k) == v,
{
    lemma_div_trunc_mul_cancel(v.x, k);
    lemma_div_trunc_mul_cancel(v.y, k);
    lemma_div_trunc_mul_cancel(v.z, k);
}

/// The inner product of a vector with itself is its squared length.
pub proof fn lemma_dot_self_is_length_squared3(v: Vec3View)
    ensures
        v.dot(v) == v.length_squared(),
{
}

proof fn lemma_mul_comm_diff(p: int, q: int, r: int, s: int)
    ensures
        p * q - r * s == -(s * r - q * p),
{
    assert(p * q - r * s == -(s * r - q * p)) by (nonlinear_arith);
}

/// The cross product is antisymmetric: cross(a, b) == -cross(b, a).
pub proof fn lemma_cross_antisymmetric(a: Vec3View, b: Vec3View)
    ensures
        a.cross(b) == b.cross(a).neg(),
{
    lemma_mul_comm_diff(a.y, b.z, a.z, b.y);
    lemma_mul_comm_diff(a.z, b.x, a.x, b.z);
    lemma_mul_comm_diff(a.x, b.y, a.y, b.x);
}

proof fn lemma_cross_term_dot_zero(px: int, py: int, pz: int, qx: int, qy: int, qz: int)
    ensures
        (py * qz - pz * qy) * px + (pz * qx - px * qz) * py + (px * qy - py * qx) * pz == 0,
{
    assert((py * qz - pz * qy) * px + (pz * qx - px * qz) * py + (px * qy - py * qx) * pz == 0)
        by (nonlinear_arith);
}

/// The cross product is orthogonal to both of its operands: its inner
/// product with either operand is exactly zero.
pub proof fn lemma_cross_orthogonal(a: Vec3View, b: Vec3View)
    ensures
        a.cross(b).dot(a) == 0,
        a.cross(b).dot(b) == 0,
{
    lemma_cross_term_dot_zero(a.x, a.y, a.z, b.x, b.y, b.z);
    assert((a.y * b.z - a.z * b.y) * b.x + (a.z * b.x - a.x * b.z) * b.y + (a.x * b.y - a.y * b.x)
        * b.z == 0) by (nonlinear_arith);
}

} // verus!
