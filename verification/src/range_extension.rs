use vstd::prelude::*;

use crate::num::div_i64;
use crate::num::div_trunc;
use crate::num::in_i64;
use crate::num::lemma_div_trunc_half_in_i64;

verus! {

/// An inclusive interval over exact integer scalars. A malformed interval
/// (`start > end`) is not rejected: every operation below stays defined
/// and produces the value its arithmetic gives.
#[derive(Clone, Copy, Debug, PartialEq, Eq, Structural)]
pub struct Interval {
    pub start: i64,
    pub end: i64,
}

/// The mathematical value of an `Interval`: two unbounded integers.
pub struct IntervalView {
    pub start: int,
    pub end: int,
}

impl View for Interval {
    type V = IntervalView;

    open spec fn view(&self) -> IntervalView {
        IntervalView { start: self.start as int, end: self.end as int }
    }
}

/// Inclusive-interval utilities: strict containment, clamping, symmetric
/// expansion and size. An implementation fixes the meaning of each
/// operation through the spec functions of the trait.
pub trait RangeExtension<T>: Sized {
    spec fn spec_surrounds(&self, value: T) -> bool;

    spec fn spec_clamp(&self, value: T) -> T;

    spec fn can_expand(&self, delta: T) -> bool;

    spec fn spec_expand(&self, delta: T) -> Self;

    spec fn can_size(&self) -> bool;

    spec fn spec_size(&self) -> T;

    /// Strict containment: true only strictly between the endpoints,
    /// distinct from a closed-interval membership test.
    fn surrounds(&self, value: T) -> (r: bool)
        ensures
            r == self.spec_surrounds(value),
    ;

    /// `value` restricted to the interval, as min(max(value, start), end).
    fn clamp(&self, value: T) -> (r: T)
        ensures
            r == self.spec_clamp(value),
    ;

    /// A new interval of the same shape grown by `delta` in total, split
    /// evenly over the two endpoints (shrunk, when `delta` is negative).
    fn expand(&self, delta: T) -> (r: Self)
        requires
            self.can_expand(delta),
        ensures
            r == self.spec_expand(delta),
    ;

    /// The signed width `end - start`; negative for a malformed interval.
    fn size(&self) -> (r: T)
        requires
            self.can_size(),
        ensures
            r == self.spec_size(),
    ;
}

impl RangeExtension<i64> for Interval {
    open spec fn spec_surrounds(&self, value: i64) -> bool {
        self.start < value && value < self.end
    }

    open spec fn spec_clamp(&self, value: i64) -> i64 {
        let lifted: i64 = if value < self.start {
            self.start
        } else {
            value
        };
        if lifted > self.end {
            self.end
        } else {
            lifted
        }
    }

    open spec fn can_expand(&self, delta: i64) -> bool {
        in_i64(self.start - div_trunc(delta as int, 2)) && in_i64(
            self.end + div_trunc(delta as int, 2),
        )
    }

    open spec fn spec_expand(&self, delta: i64) -> Interval {
        Interval {
            start: (self.start - div_trunc(delta as int, 2)) as i64,
            end: (self.end + div_trunc(delta as int, 2)) as i64,
        }
    }

    open spec fn can_size(&self) -> bool {
        in_i64(self.end - self.start)
    }

    open spec fn spec_size(&self) -> i64 {
        (self.end - self.start) as i64
    }

    fn surrounds(&self, value: i64) -> (r: bool) {
        self.start < value && value < self.end
    }

    fn clamp(&self, value: i64) -> (r: i64) {
        let lifted: i64 = if value < self.start {
            self.start
        } else {
            value
        };
        if lifted > self.end {
            self.end
        } else {
            lifted
        }
    }

    fn expand(&self, delta: i64) -> (r: Interval) {
        proof {
            lemma_div_trunc_half_in_i64(delta as int);
        }
        let padding: i64 = div_i64(delta, 2);
        Interval { start: self.start - padding, end: self.end + padding }
    }

    fn size(&self) -> (r: i64) {
        self.end - self.start
    }
}

/// For a well-formed interval, clamping lands inside the interval,
/// endpoints included, whatever the value.
pub proof fn lemma_clamp_within(i: Interval, v: i64)
    requires
        i.start <= i.end,
    ensures
        i.start <= i.spec_clamp(v) <= i.end,
{
}

/// Strict containment is false at both endpoints exactly.
pub proof fn lemma_surrounds_excludes_endpoints(i: Interval)
    ensures
        !i.spec_surrounds(i.start),
        !i.spec_surrounds(i.end),
{
}

} // verus!
