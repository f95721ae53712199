use vstd::prelude::*;

use crate::num::div_i64;
use crate::num::div_trunc;
use crate::num::in_i64;
use crate::num::lemma_div_trunc_mul_cancel;
use crate::num::sample_inclusive;
use crate::range_extension::Interval;
use crate::vec3::Vec3;
use crate::vec3::Vec3View;

verus! {

/// A 4-vector with exact integer coordinates; the same type also serves
/// as a homogeneous point or an RGBA color, depending on calling context.
#[derive(Clone, Copy, Debug, PartialEq, Eq, Structural)]
pub struct Vec4 {
    pub x: i64,
    pub y: i64,
    pub z: i64,
    pub w: i64,
}

/// A homogeneous point, represented by the same exact coordinates.
pub type Point4 = Vec4;

/// An RGBA color, represented by the same exact coordinates.
pub type ColorRGBA = Vec4;

/// The mathematical value of a `Vec4`: four unbounded integers.
pub struct Vec4View {
    pub x: int,
    pub y: int,
    pub z: int,
    pub w: int,
}

impl View for Vec4 {
    type V = Vec4View;

    open spec fn view(&self) -> Vec4View {
        Vec4View { x: self.x as int, y: self.y as int, z: self.z as int, w: self.w as int }
    }
}

impl Vec4View {
    pub open spec fn add(self, rhs: Self) -> Self {
        Vec4View { x: self.x + rhs.x, y: self.y + rhs.y, z: self.z + rhs.z, w: self.w + rhs.w }
    }

    pub open spec fn can_add(self, rhs: Self) -> bool {
        in_i64(self.x + rhs.x) && in_i64(self.y + rhs.y) && in_i64(self.z + rhs.z) && in_i64(
            self.w + rhs.w,
        )
    }

    pub open spec fn sub(self, rhs: Self) -> Self {
        Vec4View { x: self.x - rhs.x, y: self.y - rhs.y, z: self.z - rhs.z, w: self.w - rhs.w }
    }

    pub open spec fn can_sub(self, rhs: Self) -> bool {
        in_i64(self.x - rhs.x) && in_i64(self.y - rhs.y) && in_i64(self.z - rhs.z) && in_i64(
            self.w - rhs.w,
        )
    }

    pub open spec fn neg(self) -> Self {
        Vec4View { x: -self.x, y: -self.y, z: -self.z, w: -self.w }
    }

    pub open spec fn can_neg(self) -> bool {
        in_i64(-self.x) && in_i64(-self.y) && in_i64(-self.z) && in_i64(-self.w)
    }

    pub open spec fn mul(self, rhs: Self) -> Self {
        Vec4View { x: self.x * rhs.x, y: self.y * rhs.y, z: self.z * rhs.z, w: self.w * rhs.w }
    }

    pub open spec fn can_mul(self, rhs: Self) -> bool {
        in_i64(self.x * rhs.x) && in_i64(self.y * rhs.y) && in_i64(self.z * rhs.z) && in_i64(
            self.w * rhs.w,
        )
    }

    pub open spec fn scale(self, k: int) -> Self {
        Vec4View { x: self.x * k, y: self.y * k, z: self.z * k, w: self.w * k }
    }

    pub open spec fn can_scale(self, k: int) -> bool {
        in_i64(self.x * k) && in_i64(self.y * k) && in_i64(self.z * k) && in_i64(self.w * k)
    }

    pub open spec fn div(self, rhs: Self) -> Self {
        Vec4View {
            x: div_trunc(self.x, rhs.x),
            y: div_trunc(self.y, rhs.y),
            z: div_trunc(self.z, rhs.z),
            w: div_trunc(self.w, rhs.w),
        }
    }

    pub open spec fn can_div(self, rhs: Self) -> bool {
        rhs.x != 0 && rhs.y != 0 && rhs.z != 0 && rhs.w != 0 && in_i64(div_trunc(self.x, rhs.x))
            && in_i64(div_trunc(self.y, rhs.y)) && in_i64(div_trunc(self.z, rhs.z)) && in_i64(
            div_trunc(self.w, rhs.w),
        )
    }

    pub open spec fn div_scalar(self, k: int) -> Self {
        Vec4View {
            x: div_trunc(self.x, k),
            y: div_trunc(self.y, k),
            z: div_trunc(self.z, k),
            w: div_trunc(self.w, k),
        }
    }

    pub open spec fn can_div_scalar(self, k: int) -> bool {
        k != 0 && in_i64(div_trunc(self.x, k)) && in_i64(div_trunc(self.y, k)) && in_i64(
            div_trunc(self.z, k),
        ) && in_i64(div_trunc(self.w, k))
    }

    pub open spec fn dot(self, rhs: Self) -> int {
        self.x * rhs.x + self.y * rhs.y + self.z * rhs.z + self.w * rhs.w
    }

    pub open spec fn can_dot(self, rhs: Self) -> bool {
        in_i64(self.x * rhs.x) && in_i64(self.y * rhs.y) && in_i64(self.z * rhs.z) && in_i64(
            self.w * rhs.w,
        ) && in_i64(self.x * rhs.x + self.y * rhs.y) && in_i64(
            self.x * rhs.x + self.y * rhs.y + self.z * rhs.z,
        ) && in_i64(self.dot(rhs))
    }

    pub open spec fn length_squared(self) -> int {
        self.dot(self)
    }

    pub open spec fn near_zero(self) -> bool {
        self.x == 0 && self.y == 0 && self.z == 0 && self.w == 0
    }
}

impl Vec4 {
    /// The unit vector pointing up: exact, not computed.
    pub fn up() -> (r: Self)
        ensures
            r@ == (Vec4View { x: 0, y: 1, z: 0, w: 0 }),
    {
        Vec4 { x: 0, y: 1, z: 0, w: 0 }
    }

    /// The unit vector pointing down: exact, not computed.
    pub fn down() -> (r: Self)
        ensures
            r@ == (Vec4View { x: 0, y: -1, z: 0, w: 0 }),
    {
        Vec4 { x: 0, y: -1, z: 0, w: 0 }
    }

    /// The unit vector pointing left: exact, not computed.
    pub fn left() -> (r: Self)
        ensures
            r@ == (Vec4View { x: -1, y: 0, z: 0, w: 0 }),
    {
        Vec4 { x: -1, y: 0, z: 0, w: 0 }
    }

    /// The unit vector pointing right: exact, not computed.
    pub fn right() -> (r: Self)
        ensures
            r@ == (Vec4View { x: 1, y: 0, z: 0, w: 0 }),
    {
        Vec4 { x: 1, y: 0, z: 0, w: 0 }
    }

    /// The zero vector.
    pub fn zero() -> (r: Self)
        ensures
            r@ == (Vec4View { x: 0, y: 0, z: 0, w: 0 }),
    {
        Vec4 { x: 0, y: 0, z: 0, w: 0 }
    }

    /// The unit vector pointing forward: exact, not computed.
    pub fn forward() -> (r: Self)
        ensures
            r@ == (Vec4View { x: 0, y: 0, z: 1, w: 0 }),
    {
        Vec4 { x: 0, y: 0, z: 1, w: 0 }
    }

    /// The unit vector pointing backward: exact, not computed.
    pub fn backward() -> (r: Self)
        ensures
            r@ == (Vec4View { x: 0, y: 0, z: -1, w: 0 }),
    {
        Vec4 { x: 0, y: 0, z: -1, w: 0 }
    }

    pub fn new(x: i64, y: i64, z: i64, w: i64) -> (r: Self)
        ensures
            r@ == (Vec4View { x: x as int, y: y as int, z: z as int, w: w as int }),
    {
        Vec4 { x, y, z, w }
    }

    pub fn splat(val: i64) -> (r: Self)
        ensures
            r@ == (Vec4View { x: val as int, y: val as int, z: val as int, w: val as int }),
    {
        Vec4 { x: val, y: val, z: val, w: val }
    }

    /// The squared Euclidean norm; exact, and the form to compare against
    /// a threshold, since no square root is taken.
    pub fn length_squared(&self) -> (r: i64)
        requires
            self@.can_dot(self@),
        ensures
            r == self@.length_squared(),
    {
        self.x * self.x + self.y * self.y + self.z * self.z + self.w * self.w
    }

    /// The standard inner product.
    pub fn dot(&self, rhs: &Self) -> (r: i64)
        requires
            self@.can_dot(rhs@),
        ensures
            r == self@.dot(rhs@),
    {
        self.x * rhs.x + self.y * rhs.y + self.z * rhs.z + self.w * rhs.w
    }

    /// Drops the w-coordinate, producing the 3-vector (x, y, z).
    pub fn truncate(&self) -> (r: Vec3)
        ensures
            r@ == (Vec3View { x: self@.x, y: self@.y, z: self@.z }),
    {
        Vec3::new(self.x, self.y, self.z)
    }

    /// In exact arithmetic the only negligible coordinate is zero, so a
    /// vector is near zero exactly when every coordinate is zero.
    pub fn near_zero(&self) -> (r: bool)
        ensures
            r == self@.near_zero(),
    {
        self.x == 0 && self.y == 0 && self.z == 0 && self.w == 0
    }

    /// Each coordinate drawn independently and uniformly from the same
    /// inclusive interval; only membership in the interval is promised of
    /// any one draw.
    pub fn random_range(range: Interval) -> (r: Self)
        requires
            range.start <= range.end,
        ensures
            range@.start <= r@.x <= range@.end,
            range@.start <= r@.y <= range@.end,
            range@.start <= r@.z <= range@.end,
            range@.start <= r@.w <= range@.end,
    {
        Vec4 {
            x: sample_inclusive(range.start, range.end),
            y: sample_inclusive(range.start, range.end),
            z: sample_inclusive(range.start, range.end),
            w: sample_inclusive(range.start, range.end),
        }
    }

    /// Componentwise addition.
    pub fn add(self, rhs: Self) -> (r: Self)
        requires
            self@.can_add(rhs@),
        ensures
            r@ == self@.add(rhs@),
    {
        Vec4 { x: self.x + rhs.x, y: self.y + rhs.y, z: self.z + rhs.z, w: self.w + rhs.w }
    }

    /// In-place componentwise addition.
    pub fn add_assign(&mut self, rhs: Self)
        requires
            old(self)@.can_add(rhs@),
        ensures
            final(self)@ == old(self)@.add(rhs@),
    {
        *self = self.add(rhs);
    }

    /// Componentwise subtraction.
    pub fn sub(self, rhs: Self) -> (r: Self)
        requires
            self@.can_sub(rhs@),
        ensures
            r@ == self@.sub(rhs@),
    {
        Vec4 { x: self.x - rhs.x, y: self.y - rhs.y, z: self.z - rhs.z, w: self.w - rhs.w }
    }

    /// In-place componentwise subtraction.
    pub fn sub_assign(&mut self, rhs: Self)
        requires
            old(self)@.can_sub(rhs@),
        ensures
            final(self)@ == old(self)@.sub(rhs@),
    {
        *self = self.sub(rhs);
    }

    /// Componentwise negation.
    pub fn neg(self) -> (r: Self)
        requires
            self@.can_neg(),
        ensures
            r@ == self@.neg(),
    {
        Vec4 { x: -self.x, y: -self.y, z: -self.z, w: -self.w }
    }

    /// Componentwise multiplication.
    pub fn mul(self, rhs: Self) -> (r: Self)
        requires
            self@.can_mul(rhs@),
        ensures
            r@ == self@.mul(rhs@),
    {
        Vec4 { x: self.x * rhs.x, y: self.y * rhs.y, z: self.z * rhs.z, w: self.w * rhs.w }
    }

    /// In-place componentwise multiplication.
    pub fn mul_assign(&mut self, rhs: Self)
        requires
            old(self)@.can_mul(rhs@),
        ensures
            final(self)@ == old(self)@.mul(rhs@),
    {
        *self = self.mul(rhs);
    }

    /// Multiplication by a scalar. A scalar on the left multiplies the
    /// same way: scalar multiplication commutes.
    pub fn scale(self, k: i64) -> (r: Self)
        requires
            self@.can_scale(k as int),
        ensures
            r@ == self@.scale(k as int),
    {
        Vec4 { x: self.x * k, y: self.y * k, z: self.z * k, w: self.w * k }
    }

    /// In-place multiplication by a scalar.
    pub fn scale_assign(&mut self, k: i64)
        requires
            old(self)@.can_scale(k as int),
        ensures
            final(self)@ == old(self)@.scale(k as int),
    {
        *self = self.scale(k);
    }

    /// Componentwise division (truncating, exact on exact multiples).
    pub fn div(self, rhs: Self) -> (r: Self)
        requires
            self@.can_div(rhs@),
        ensures
            r@ == self@.div(rhs@),
    {
        Vec4 {
            x: div_i64(self.x, rhs.x),
            y: div_i64(self.y, rhs.y),
            z: div_i64(self.z, rhs.z),
            w: div_i64(self.w, rhs.w),
        }
    }

    /// In-place componentwise division.
    pub fn div_assign(&mut self, rhs: Self)
        requires
            old(self)@.can_div(rhs@),
        ensures
            final(self)@ == old(self)@.div(rhs@),
    {
        *self = self.div(rhs);
    }

    /// Division by a scalar.
    pub fn div_scalar(self, k: i64) -> (r: Self)
        requires
            self@.can_div_scalar(k as int),
        ensures
            r@ == self@.div_scalar(k as int),
    {
        Vec4 { x: div_i64(self.x, k), y: div_i64(self.y, k), z: div_i64(self.z, k), w: div_i64(self.w, k) }
    }

    /// In-place division by a scalar.
    pub fn div_scalar_assign(&mut self, k: i64)
        requires
            old(self)@.can_div_scalar(k as int),
        ensures
            final(self)@ == old(self)@.div_scalar(k as int),
    {
        *self = self.div_scalar(k);
    }
}

/// Adding a vector and subtracting it again returns the original vector:
/// `add` and `sub` are mutual inverses.
pub proof fn lemma_add_sub_cancel4(v: Vec4View, w: Vec4View)
    ensures
        v.add(w).sub(w) == v,
{
}

/// Scaling by a nonzero scalar and dividing by it again returns the
/// original vector.
pub proof fn lemma_scale_div_cancel4(v: Vec4View, k: int)
    requires
        k != 0,
    ensures
        v.scale(k).div_scalar(k) == v,
{
    lemma_div_trunc_mul_cancel(v.x, k);
    lemma_div_trunc_mul_cancel(v.y, k);
    lemma_div_trunc_mul_cancel(v.z, k);
    lemma_div_trunc_mul_cancel(v.w, k);
}

/// The inner product of a vector with itself is its squared length.
pub proof fn lemma_dot_self_is_length_squared4(v: Vec4View)
    ensures
        v.dot(v) == v.length_squared(),
{
}

} // verus!
