use rand::Rng;
use vstd::arithmetic::div_mod::lemma_div_multiples_vanish;
use vstd::prelude::*;

verus! {

/// Relies on rand's `Rng::gen_range` on the thread-local generator: a draw
/// from a nonempty inclusive integer range lies within that range. Nothing
/// more is promised of any one draw.
#[verifier::external_body]
pub(crate) fn sample_inclusive(lo: i64, hi: i64) -> (r: i64)
    requires
        lo <= hi,
    ensures
        lo <= r <= hi,
{
    rand::thread_rng().gen_range(lo..=hi)
}

/// True when the mathematical integer `n` is representable as an `i64`.
pub open spec fn in_i64(n: int) -> bool {
    i64::MIN <= n <= i64::MAX
}

/// Rust's truncating integer division (the quotient is rounded toward
/// zero), as a mathematical function of the operands; meaningful only for
/// a nonzero divisor `d`.
pub open spec fn div_trunc(x: int, d: int) -> int
    recommends
        d != 0,
{
    if x == 0 {
        0
    } else if x > 0 && d > 0 {
        x / d
    } else if x < 0 && d < 0 {
        (x * -1) / (d * -1)
    } else if x < 0 {
        ((x * -1) / d) * -1
    } else {
        (x / (d * -1)) * -1
    }
}

/// Truncating division on machine integers. The divisor must be nonzero,
/// and the quotient must be representable (`i64::MIN / -1` is the one
/// quotient that is not).
pub fn div_i64(a: i64, b: i64) -> (r: i64)
    requires
        b != 0,
        in_i64(div_trunc(a as int, b as int)),
    ensures
        r == div_trunc(a as int, b as int),
{
    a.checked_div(b).unwrap()
}

/// Halving a representable integer keeps it representable.
pub proof fn lemma_div_trunc_half_in_i64(d: int)
    requires
        in_i64(d),
    ensures
        in_i64(div_trunc(d, 2)),
{
}

/// Scaling by a nonzero integer and then dividing by that integer returns
/// the original value: truncating division exactly undoes an exact multiple.
pub proof fn lemma_div_trunc_mul_cancel(x: int, k: int)
    requires
        k != 0,
    ensures
        div_trunc(x * k, k) == x,
{
    if x == 0 {
        assert(x * k == 0) by (nonlinear_arith)
            requires
                x == 0,
        ;
    } else if x > 0 && k > 0 {
        assert(x * k > 0 && x * k == k * x) by (nonlinear_arith)
            requires
                x > 0 && k > 0,
        ;
        lemma_div_multiples_vanish(x, k);
    } else if x > 0 && k < 0 {
        assert(x * k < 0 && (x * k) * -1 == (k * -1) * x) by (nonlinear_arith)
            requires
                x > 0 && k < 0,
        ;
        lemma_div_multiples_vanish(x, k * -1);
    } else if x < 0 && k > 0 {
        assert(x * k < 0 && (x * k) * -1 == k * (x * -1)) by (nonlinear_arith)
            requires
                x < 0 && k > 0,
        ;
        lemma_div_multiples_vanish(x * -1, k);
    } else {
        assert(x * k > 0 && x * k == (k * -1) * (x * -1)) by (nonlinear_arith)
            requires
                x < 0 && k < 0,
        ;
        lemma_div_multiples_vanish(x * -1, k * -1);
    }
}

} // verus!
