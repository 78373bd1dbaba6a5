use crate::vec3::{lawful, Scalar};
use std::cmp::Ordering;
use vstd::prelude::*;
use vstd::std_specs::cmp::PartialOrdSpec;
use vstd::std_specs::ops::SubSpec;

verus! {

/// `a < b` as the scalar's comparison specifies it.
pub open spec fn below<S: PartialOrd>(a: S, b: S) -> bool {
    a.partial_cmp_spec(&b) == Some(Ordering::Less)
}

/// `a > b` as the scalar's comparison specifies it.
pub open spec fn above<S: PartialOrd>(a: S, b: S) -> bool {
    a.partial_cmp_spec(&b) == Some(Ordering::Greater)
}

/// `a <= b` as the scalar's comparison specifies it.
pub open spec fn at_most<S: PartialOrd>(a: S, b: S) -> bool {
    a.partial_cmp_spec(&b) matches Some(Ordering::Less | Ordering::Equal)
}

/// The scalar's comparisons return what their specification says.
pub open spec fn ordered<S: PartialOrd>() -> bool {
    <S as PartialOrdSpec>::obeys_partial_cmp_spec()
}

/// The closed range `[min, max]` of the scalar line; empty when `max < min`.
#[derive(Clone, Copy, Debug)]
pub struct Interval<S> {
    pub min: S,
    pub max: S,
}

impl<S: Copy + PartialOrd> Interval<S> {
    /// The interval from the lower of the two lower bounds to the higher of the two upper ones.
    pub open spec fn merge_spec(self, o: Self) -> Self {
        Interval {
            min: if below(o.min, self.min) { o.min } else { self.min },
            max: if below(self.max, o.max) { o.max } else { self.max },
        }
    }

    /// `e` is an empty interval at the ends of the order: no value lies above
    /// its lower bound and none below its upper bound (as `+inf` and `-inf`).
    pub open spec fn is_extreme_empty(e: Self) -> bool {
        forall|x: S| !below(e.min, x) && !below(x, e.max)
    }

    pub fn new(min: S, max: S) -> (r: Self)
        ensures
            r.min == min && r.max == max,
    {
        Interval { min, max }
    }

    /// The smallest interval holding both.
    pub fn merge(self, o: Self) -> (r: Self)
        requires
            ordered::<S>(),
        ensures
            r == self.merge_spec(o),
    {
        let min = if o.min < self.min { o.min } else { self.min };
        let max = if self.max < o.max { o.max } else { self.max };
        Interval { min, max }
    }

    /// `min <= x <= max`.
    pub fn contains(self, x: S) -> (r: bool)
        requires
            ordered::<S>(),
        ensures
            r == (at_most(self.min, x) && at_most(x, self.max)),
    {
        self.min <= x && x <= self.max
    }

    /// `min < x < max`.
    pub fn surrounds(self, x: S) -> (r: bool)
        requires
            ordered::<S>(),
        ensures
            r == (below(self.min, x) && below(x, self.max)),
    {
        self.min < x && x < self.max
    }

    /// `x` saturated into the interval: `min` below it, `max` above it, else `x` itself.
    pub fn clamp(self, x: S) -> (r: S)
        requires
            ordered::<S>(),
        ensures
            below(x, self.min) ==> r == self.min,
            !below(x, self.min) && above(x, self.max) ==> r == self.max,
            !below(x, self.min) && !above(x, self.max) ==> r == x,
    {
        if x < self.min {
            self.min
        } else if x > self.max {
            self.max
        } else {
            x
        }
    }
}

impl<S: Scalar + PartialOrd> Interval<S> {
    /// `max - min`.
    pub fn size(self) -> (r: S)
        requires
            lawful::<S>(),
            self.max.sub_req(self.min),
        ensures
            r == self.max.sub_spec(self.min),
    {
        self.max - self.min
    }
}

/// Merging any interval with the empty interval at the ends of the order gives
/// that interval back.
pub proof fn lemma_merge_with_empty<S: Copy + PartialOrd>(a: Interval<S>, e: Interval<S>)
    requires
        Interval::<S>::is_extreme_empty(e),
    ensures
        a.merge_spec(e) == a,
{
    assert(!below(e.min, a.min));
    assert(!below(a.max, e.max));
}

} // verus!
