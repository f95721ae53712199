use vstd::prelude::*;

use crate::num::in_i64;
use crate::vec3::Vec3;

verus! {

/// Linear interpolation from `rhs` toward `self`: the result is
/// (1 - fac) * rhs + fac * self. The operand order is deliberate — at
/// `fac == 0` the result is `rhs`, at `fac == 1` it is `self` — and is
/// part of the contract, since swapping it silently flips which endpoint
/// each factor selects.
pub trait Lerp: Sized {
    spec fn can_lerp(self, rhs: Self, fac: i64) -> bool;

    spec fn spec_lerp(self, rhs: Self, fac: i64) -> Self;

    fn lerp(self, rhs: Self, fac: i64) -> (r: Self)
        requires
            self.can_lerp(rhs, fac),
        ensures
            r == self.spec_lerp(rhs, fac),
    ;
}

impl Lerp for i64 {
    open spec fn can_lerp(self, rhs: Self, fac: i64) -> bool {
        in_i64(1 - fac) && in_i64((1 - fac) * rhs) && in_i64(fac * self) && in_i64(
            (1 - fac) * rhs + fac * self,
        )
    }

    open spec fn spec_lerp(self, rhs: Self, fac: i64) -> Self {
        ((1 - fac) * rhs + fac * self) as i64
    }

    fn lerp(self, rhs: Self, fac: i64) -> (r: Self) {
        let one_minus_fac: i64 = 1 - fac;
        one_minus_fac * rhs + fac * self
    }
}

impl Lerp for Vec3 {
    open spec fn can_lerp(self, rhs: Self, fac: i64) -> bool {
        self.x.can_lerp(rhs.x, fac) && self.y.can_lerp(rhs.y, fac) && self.z.can_lerp(rhs.z, fac)
    }

    open spec fn spec_lerp(self, rhs: Self, fac: i64) -> Self {
        Vec3 {
            x: self.x.spec_lerp(rhs.x, fac),
            y: self.y.spec_lerp(rhs.y, fac),
            z: self.z.spec_lerp(rhs.z, fac),
        }
    }

    fn lerp(self, rhs: Self, fac: i64) -> (r: Self) {
        Vec3 { x: self.x.lerp(rhs.x, fac), y: self.y.lerp(rhs.y, fac), z: self.z.lerp(rhs.z, fac) }
    }
}

/// At interpolation factor zero the result is exactly the second operand.
pub proof fn lemma_lerp_zero(a: i64, b: i64)
    ensures
        a.spec_lerp(b, 0) == b,
{
}

/// At interpolation factor one the result is exactly the first operand.
pub proof fn lemma_lerp_one(a: i64, b: i64)
    ensures
        a.spec_lerp(b, 1) == a,
{
}

/// At interpolation factor zero the result is exactly the second vector.
pub proof fn lemma_lerp_zero_vec3(a: Vec3, b: Vec3)
    ensures
        a.spec_lerp(b, 0) == b,
{
    lemma_lerp_zero(a.x, b.x);
    lemma_lerp_zero(a.y, b.y);
    lemma_lerp_zero(a.z, b.z);
}

/// At interpolation factor one the result is exactly the first vector.
pub proof fn lemma_lerp_one_vec3(a: Vec3, b: Vec3)
    ensures
        a.spec_lerp(b, 1) == a,
{
    lemma_lerp_one(a.x, b.x);
    lemma_lerp_one(a.y, b.y);
    lemma_lerp_one(a.z, b.z);
}

} // verus!
