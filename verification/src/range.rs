//! Intervals as pairs of endpoints: queries, membership and the order between
//! intervals.

use crate::bound::Bound;
use crate::bound::BoundType;
use std::cmp::Ordering;
use vstd::prelude::*;
use vstd::std_specs::cmp::PartialEqSpec;
use vstd::std_specs::cmp::PartialOrdIs;
use vstd::std_specs::cmp::PartialOrdSpec;

verus! {

/// A lower and an upper endpoint.
///
/// Nothing relates the two: an interval whose lower limit lies above its
/// upper limit can be built, and holds no value.
#[derive(Debug)]
pub struct Interval<T> {
    pub lower: Bound<T>,
    pub upper: Bound<T>,
}

/// A set of values between two endpoints, or the empty set.
#[derive(Debug)]
pub enum Range<T> {
    Inhabited(Interval<T>),
    Empty,
}

impl<T> Range<T> {
    /// The lower endpoint, if the range has endpoints.
    pub open spec fn lower_end(self) -> Option<Bound<T>> {
        match self {
            Range::Inhabited(interval) => Some(interval.lower),
            Range::Empty => None,
        }
    }

    /// The upper endpoint, if the range has endpoints.
    pub open spec fn upper_end(self) -> Option<Bound<T>> {
        match self {
            Range::Inhabited(interval) => Some(interval.upper),
            Range::Empty => None,
        }
    }

    /// Neither side is unbounded. The empty range has no sides, and so no
    /// unbounded one.
    pub open spec fn bounded(self) -> bool {
        match self {
            Range::Inhabited(interval) => {
                &&& !(interval.lower is Unbounded)
                &&& !(interval.upper is Unbounded)
            },
            Range::Empty => true,
        }
    }

    /// The range `[start, end)`.
    pub open spec fn half_open(start: T, end: T) -> Range<T> {
        Range::Inhabited(Interval { lower: Bound::Inclusive(start), upper: Bound::Exclusive(end) })
    }

    /// The range `[start, +inf)`.
    pub open spec fn at_least(start: T) -> Range<T> {
        Range::Inhabited(Interval { lower: Bound::Inclusive(start), upper: Bound::Unbounded })
    }

    /// The range `(-inf, end)`.
    pub open spec fn below(end: T) -> Range<T> {
        Range::Inhabited(Interval { lower: Bound::Unbounded, upper: Bound::Exclusive(end) })
    }

    /// The range `(-inf, +inf)`.
    pub open spec fn everything() -> Range<T> {
        Range::Inhabited(Interval { lower: Bound::Unbounded, upper: Bound::Unbounded })
    }

    /// The range between `lower` and `upper`. It is never `Empty`, whatever
    /// the two endpoints are.
    pub fn new(lower: Bound<T>, upper: Bound<T>) -> (r: Range<T>)
        ensures
            r == Range::Inhabited(Interval { lower, upper }),
    {
        Range::Inhabited(Interval { lower: lower, upper: upper })
    }

    /// True iff the range has endpoints and the lower one is unbounded.
    pub fn lower_inf(&self) -> (r: bool)
        ensures
            r == (self.lower_end() == Some(Bound::<T>::Unbounded)),
    {
        match *self {
            Range::Inhabited(ref range) => match range.lower {
                Bound::Unbounded => true,
                _ => false,
            },
            Range::Empty => false,
        }
    }

    /// True iff the range has endpoints and the upper one is unbounded.
    pub fn upper_inf(&self) -> (r: bool)
        ensures
            r == (self.upper_end() == Some(Bound::<T>::Unbounded)),
    {
        match *self {
            Range::Inhabited(ref range) => match range.upper {
                Bound::Unbounded => true,
                _ => false,
            },
            Range::Empty => false,
        }
    }

    /// True iff the range has endpoints and the lower one is inclusive.
    pub fn lower_inc(&self) -> (r: bool)
        ensures
            r == (self.lower_end() matches Some(Bound::Inclusive(_))),
    {
        match *self {
            Range::Inhabited(ref range) => match range.lower {
                Bound::Inclusive(_) => true,
                _ => false,
            },
            Range::Empty => false,
        }
    }

    /// True iff the range has endpoints and the upper one is inclusive.
    pub fn upper_inc(&self) -> (r: bool)
        ensures
            r == (self.upper_end() matches Some(Bound::Inclusive(_))),
    {
        match *self {
            Range::Inhabited(ref range) => match range.upper {
                Bound::Inclusive(_) => true,
                _ => false,
            },
            Range::Empty => false,
        }
    }

    /// True iff the range has endpoints.
    pub fn is_inhabited(&self) -> (r: bool)
        ensures
            r == (self is Inhabited),
    {
        match *self {
            Range::Inhabited(_) => true,
            Range::Empty => false,
        }
    }

    /// True iff the range is the empty set by construction.
    pub fn is_empty(&self) -> (r: bool)
        ensures
            r == (self is Empty),
    {
        !self.is_inhabited()
    }

    /// True iff neither side is unbounded; the empty range has no unbounded
    /// side.
    pub fn is_bounded(&self) -> (r: bool)
        ensures
            r == self.bounded(),
    {
        match *self {
            Range::Inhabited(ref range) => { range.lower.is_bounded() && range.upper.is_bounded() },
            Range::Empty => true,
        }
    }
}

impl<T: Clone> Range<T> {
    /// A clone of the lower endpoint; `None` for the empty range.
    pub fn lower(&self) -> (r: Option<Bound<T>>)
        ensures
            match (self.lower_end(), r) {
                (Some(end), Some(copy)) => end.cloned_to(copy),
                (None, None) => true,
                _ => false,
            },
    {
        match *self {
            Range::Inhabited(ref range) => Some(range.lower.clone()),
            Range::Empty => None,
        }
    }

    /// A clone of the upper endpoint; `None` for the empty range.
    pub fn upper(&self) -> (r: Option<Bound<T>>)
        ensures
            match (self.upper_end(), r) {
                (Some(end), Some(copy)) => end.cloned_to(copy),
                (None, None) => true,
                _ => false,
            },
    {
        match *self {
            Range::Inhabited(ref range) => Some(range.upper.clone()),
            Range::Empty => None,
        }
    }
}

impl<T: PartialOrd> Range<T> {
    /// What the comparison of `item` with the limit of a lower endpoint may
    /// report as `passed`: `item >= limit` for an inclusive limit,
    /// `item > limit` for an exclusive one. Without a limit every item
    /// passes.
    pub open spec fn lower_test(end: Bound<T>, item: T, passed: bool) -> bool {
        match end {
            Bound::Inclusive(limit) => call_ensures(T::ge, (&item, &limit), passed),
            Bound::Exclusive(limit) => call_ensures(T::gt, (&item, &limit), passed),
            Bound::Unbounded => passed,
        }
    }

    /// What the comparison of `item` with the limit of an upper endpoint may
    /// report as `passed`: `item <= limit` for an inclusive limit,
    /// `item < limit` for an exclusive one. Without a limit every item
    /// passes.
    pub open spec fn upper_test(end: Bound<T>, item: T, passed: bool) -> bool {
        match end {
            Bound::Inclusive(limit) => call_ensures(T::le, (&item, &limit), passed),
            Bound::Exclusive(limit) => call_ensures(T::lt, (&item, &limit), passed),
            Bound::Unbounded => passed,
        }
    }

    /// Membership: `item` lies on the inner side of both endpoints. The
    /// empty range holds nothing, and an item that cannot be compared with a
    /// limit is not on its inner side.
    pub open spec fn holds(self, item: T) -> bool {
        match self {
            Range::Inhabited(interval) => {
                &&& interval.lower.admits(BoundType::Lower, item)
                &&& interval.upper.admits(BoundType::Upper, item)
            },
            Range::Empty => false,
        }
    }

    /// True iff `item` is a member of the range.
    ///
    /// The item is tested against each side with the comparison operators of
    /// `T`, and is a member iff it passes both tests. Where `T` keeps to its
    /// comparison specification, that is [`Range::holds`].
    pub fn contains(&self, item: &T) -> (r: bool)
        ensures
            match *self {
                Range::Inhabited(interval) => exists|within_lower: bool, within_upper: bool|
                    {
                        &&& #[trigger] Self::lower_test(interval.lower, *item, within_lower)
                        &&& #[trigger] Self::upper_test(interval.upper, *item, within_upper)
                        &&& r == (within_lower && within_upper)
                    },
                Range::Empty => !r,
            },
            T::obeys_partial_cmp_spec() ==> r == self.holds(*item),
    {
        match *self {
            Range::Inhabited(ref range) => {
                let within_lower = match range.lower {
                    Bound::Inclusive(ref lower) => *item >= *lower,
                    Bound::Exclusive(ref lower) => *item > *lower,
                    Bound::Unbounded => true,
                };

                let within_upper = match range.upper {
                    Bound::Inclusive(ref upper) => *item <= *upper,
                    Bound::Exclusive(ref upper) => *item < *upper,
                    Bound::Unbounded => true,
                };

                assert(Self::lower_test(range.lower, *item, within_lower));
                assert(Self::upper_test(range.upper, *item, within_upper));
                within_lower && within_upper
            },
            Range::Empty => false,
        }
    }
}

impl<T: PartialOrd> Range<T> {
    /// The order of two ranges: by their lower endpoints, and among equal
    /// lower endpoints by their upper endpoints. The empty range has no
    /// endpoints to compare and so no place in the order, not even beside
    /// itself.
    pub open spec fn order(a: Self, b: Self) -> Option<Ordering> {
        match (a, b) {
            (Range::Inhabited(x), Range::Inhabited(y)) => match Bound::order(
                BoundType::Lower,
                x.lower,
                y.lower,
            ) {
                Some(Ordering::Equal) => Bound::order(BoundType::Upper, x.upper, y.upper),
                decided => decided,
            },
            _ => None,
        }
    }
}

impl<T: Clone> Clone for Interval<T> {
    fn clone(&self) -> (r: Self)
        ensures
            self.lower.cloned_to(r.lower),
            self.upper.cloned_to(r.upper),
    {
        Interval { lower: self.lower.clone(), upper: self.upper.clone() }
    }
}

impl<T: Clone> Clone for Range<T> {
    fn clone(&self) -> (r: Self)
        ensures
            match (*self, r) {
                (Range::Inhabited(x), Range::Inhabited(y)) => {
                    &&& x.lower.cloned_to(y.lower)
                    &&& x.upper.cloned_to(y.upper)
                },
                (Range::Empty, Range::Empty) => true,
                _ => false,
            },
    {
        match self {
            Range::Inhabited(interval) => Range::Inhabited(interval.clone()),
            Range::Empty => Range::Empty,
        }
    }
}

impl<T: PartialEq> PartialEq for Interval<T> {
    /// Intervals are equal when both pairs of endpoints are. The upper
    /// endpoints are compared only where the lower ones are equal.
    fn eq(&self, other: &Self) -> (r: bool)
        ensures
            exists|lowers: bool|
                {
                    &&& #[trigger] call_ensures(
                        Bound::<T>::eq,
                        (&self.lower, &other.lower),
                        lowers,
                    )
                    &&& if lowers {
                        call_ensures(Bound::<T>::eq, (&self.upper, &other.upper), r)
                    } else {
                        !r
                    }
                },
    {
        self.lower == other.lower && self.upper == other.upper
    }
}

impl<T: PartialEq> vstd::std_specs::cmp::PartialEqSpecImpl for Interval<T> {
    open spec fn obeys_eq_spec() -> bool {
        T::obeys_eq_spec()
    }

    open spec fn eq_spec(&self, other: &Self) -> bool {
        PartialEqSpec::eq_spec(&self.lower, &other.lower) && PartialEqSpec::eq_spec(
            &self.upper,
            &other.upper,
        )
    }
}

impl<T: PartialEq> PartialEq for Range<T> {
    /// Ranges are equal when both are empty or both have equal endpoints. An
    /// empty range never equals one with endpoints.
    fn eq(&self, other: &Self) -> (r: bool)
        ensures
            match (*self, *other) {
                (Range::Inhabited(x), Range::Inhabited(y)) => call_ensures(
                    Interval::<T>::eq,
                    (&x, &y),
                    r,
                ),
                (Range::Empty, Range::Empty) => r,
                _ => !r,
            },
    {
        match (self, other) {
            (Range::Inhabited(x), Range::Inhabited(y)) => *x == *y,
            (Range::Empty, Range::Empty) => true,
            _ => false,
        }
    }
}

impl<T: PartialEq> vstd::std_specs::cmp::PartialEqSpecImpl for Range<T> {
    open spec fn obeys_eq_spec() -> bool {
        T::obeys_eq_spec()
    }

    open spec fn eq_spec(&self, other: &Self) -> bool {
        match (*self, *other) {
            (Range::Inhabited(x), Range::Inhabited(y)) => PartialEqSpec::eq_spec(&x, &y),
            (Range::Empty, Range::Empty) => true,
            _ => false,
        }
    }
}

impl<T: PartialOrd> PartialOrd for Range<T> {
    /// Compares two ranges: lower endpoints first, upper endpoints where the
    /// lower ones are equal. A comparison with the empty range is always
    /// indeterminate.
    fn partial_cmp(&self, other: &Self) -> (r: Option<Ordering>)
        ensures
            match (*self, *other) {
                (Range::Inhabited(x), Range::Inhabited(y)) => exists|lowers: Option<Ordering>|
                    {
                        &&& #[trigger] call_ensures(
                            Bound::<T>::compare_bounds,
                            (BoundType::Lower, &x.lower, &y.lower),
                            lowers,
                        )
                        &&& if lowers == Some(Ordering::Equal) {
                            call_ensures(
                                Bound::<T>::compare_bounds,
                                (BoundType::Upper, &x.upper, &y.upper),
                                r,
                            )
                        } else {
                            r == lowers
                        }
                    },
                _ => r is None,
            },
    {
        match (self, other) {
            (Range::Inhabited(a), Range::Inhabited(b)) => {
                match Bound::compare_bounds(BoundType::Lower, &a.lower, &b.lower) {
                    Some(Ordering::Equal) => {
                        Bound::compare_bounds(BoundType::Upper, &a.upper, &b.upper)
                    },
                    decided => decided,
                }
            },
            _ => None,
        }
    }
}

impl<T: PartialOrd> vstd::std_specs::cmp::PartialOrdSpecImpl for Range<T> {
    open spec fn obeys_partial_cmp_spec() -> bool {
        T::obeys_partial_cmp_spec()
    }

    open spec fn partial_cmp_spec(&self, other: &Self) -> Option<Ordering> {
        Range::order(*self, *other)
    }
}

/// The empty range has no place in the order: compared with any range, on
/// either side, and with itself, the result is indeterminate.
pub proof fn lemma_empty_is_unordered<T: PartialOrd>(a: Range<T>)
    ensures
        Range::order(Range::Empty, a) is None,
        Range::order(a, Range::Empty) is None,
        Range::<T>::Empty.partial_cmp_spec(&a) is None,
        a.partial_cmp_spec(&Range::Empty) is None,
{
}

/// Which of the usual shapes are bounded: the empty range and `[start, end)`
/// are, and a range that lacks a limit on either side is not.
pub proof fn lemma_bounded_shapes<T>(start: T, end: T)
    ensures
        Range::<T>::Empty.bounded(),
        Range::half_open(start, end).bounded(),
        !Range::at_least(start).bounded(),
        !Range::below(end).bounded(),
        !Range::<T>::everything().bounded(),
{
}

/// The order among the usual shapes, for a `start` that compares equal to
/// itself. The range without limits comes before every range that starts
/// somewhere and after every range that ends somewhere; a range with a start
/// comes after one without; among ranges with the same start, the one that
/// ends comes before the one that does not, and two that end are ordered as
/// their ends are.
pub proof fn lemma_order_of_shapes<T: PartialOrd>(start: T, end: T, other_end: T)
    requires
        start.partial_cmp_spec(&start) == Some(Ordering::Equal),
    ensures
        Range::<T>::order(Range::everything(), Range::everything()) == Some(Ordering::Equal),
        Range::order(Range::everything(), Range::half_open(start, end)) == Some(Ordering::Less),
        Range::order(Range::everything(), Range::at_least(start)) == Some(Ordering::Less),
        Range::order(Range::everything(), Range::below(end)) == Some(Ordering::Greater),
        Range::order(Range::half_open(start, end), Range::below(other_end)) == Some(
            Ordering::Greater,
        ),
        Range::order(Range::half_open(start, end), Range::at_least(start)) == Some(Ordering::Less),
        Range::order(Range::at_least(start), Range::half_open(start, end)) == Some(
            Ordering::Greater,
        ),
        Range::order(Range::half_open(start, end), Range::half_open(start, other_end))
            == end.partial_cmp_spec(&other_end),
{
}

/// Membership read with the comparison operators: an item is held iff it is
/// `>=` an inclusive lower limit or `>` an exclusive one, and `<=` an
/// inclusive upper limit or `<` an exclusive one. A side without a limit
/// lets every item pass, and the empty range holds nothing.
pub proof fn lemma_membership_by_comparison<T: PartialOrd>(range: Range<T>, item: T)
    ensures
        range.holds(item) <==> match range {
            Range::Inhabited(interval) => {
                &&& match interval.lower {
                    Bound::Inclusive(limit) => item.is_ge(&limit),
                    Bound::Exclusive(limit) => item.is_gt(&limit),
                    Bound::Unbounded => true,
                }
                &&& match interval.upper {
                    Bound::Inclusive(limit) => item.is_le(&limit),
                    Bound::Exclusive(limit) => item.is_lt(&limit),
                    Bound::Unbounded => true,
                }
            },
            Range::Empty => false,
        },
{
}

/// Over `i32`, the range `[start, end)` holds exactly the integers from
/// `start` up to, and without, `end`.
pub proof fn lemma_half_open_membership(start: i32, end: i32, item: i32)
    ensures
        Range::half_open(start, end).holds(item) <==> start <= item < end,
{
}

/// Over `i32`, a range whose lower limit lies above its upper limit holds
/// nothing, whatever the inclusivity of its endpoints.
pub proof fn lemma_inverted_holds_nothing(range: Range<i32>, item: i32)
    requires
        range matches Range::Inhabited(interval) && Bound::limits_order(
            interval.lower,
            interval.upper,
        ) == Some(Ordering::Greater),
    ensures
        !range.holds(item),
{
}

} // verus!
