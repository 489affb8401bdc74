//! Endpoints of intervals, and the order between two endpoints that play the
//! same role.

use std::cmp::Ordering;
use vstd::prelude::*;
use vstd::std_specs::cmp::PartialEqSpec;
use vstd::std_specs::cmp::PartialOrdSpec;

verus! {

/// The role an endpoint plays: the lower or the upper limit of an interval.
///
/// The role is not stored in a [`Bound`]; it is handed to the comparison,
/// because the same endpoint orders differently as a lower and as an upper
/// limit.
#[derive(Clone, Copy, Debug, PartialEq, Eq, Structural)]
pub enum BoundType {
    Lower,
    Upper,
}

/// One endpoint of an interval over `T`.
#[derive(Debug)]
pub enum Bound<T> {
    /// The limit itself belongs to the interval.
    Inclusive(T),
    /// The limit itself does not belong to the interval.
    Exclusive(T),
    /// No limit on this side.
    Unbounded,
}

/// The ordering seen from the other side: `Less` and `Greater` change places.
pub open spec fn mirrored(o: Ordering) -> Ordering {
    match o {
        Ordering::Less => Ordering::Greater,
        Ordering::Equal => Ordering::Equal,
        Ordering::Greater => Ordering::Less,
    }
}

impl BoundType {
    /// Where the more permissive of two endpoints sorts relative to the less
    /// permissive one.
    ///
    /// A lower limit admits more the earlier it starts, so the more
    /// permissive one is `Less`; an upper limit admits more the later it
    /// ends, so the more permissive one is `Greater`.
    pub open spec fn permissive_side(self) -> Ordering {
        match self {
            BoundType::Lower => Ordering::Less,
            BoundType::Upper => Ordering::Greater,
        }
    }

    /// The order of two limits at the same value, from their inclusivity
    /// alone: equal openness ties, otherwise the inclusive limit is the more
    /// permissive one.
    pub open spec fn tie_break(self, a_inclusive: bool, b_inclusive: bool) -> Ordering {
        if a_inclusive == b_inclusive {
            Ordering::Equal
        } else if a_inclusive {
            self.permissive_side()
        } else {
            mirrored(self.permissive_side())
        }
    }

    /// Computes [`BoundType::permissive_side`].
    pub fn more_permissive(self) -> (r: Ordering)
        ensures
            r == self.permissive_side(),
    {
        match self {
            BoundType::Lower => Ordering::Less,
            BoundType::Upper => Ordering::Greater,
        }
    }

    /// Computes the mirror image of [`BoundType::permissive_side`].
    pub fn less_permissive(self) -> (r: Ordering)
        ensures
            r == mirrored(self.permissive_side()),
    {
        match self {
            BoundType::Lower => Ordering::Greater,
            BoundType::Upper => Ordering::Less,
        }
    }
}

impl<T> Bound<T> {
    /// The limit value, if there is one.
    pub open spec fn limit(self) -> Option<T> {
        match self {
            Bound::Inclusive(v) => Some(v),
            Bound::Exclusive(v) => Some(v),
            Bound::Unbounded => None,
        }
    }

    /// The order of `a` and `b`, both in the role `role`, once it is known
    /// that their limit values compare as `values`.
    ///
    /// `values` matters only where both endpoints have a limit. An
    /// indeterminate value comparison stays indeterminate; an unequal one
    /// decides by itself; an equal one is settled by inclusivity.
    pub open spec fn order_given(
        role: BoundType,
        a: Self,
        b: Self,
        values: Option<Ordering>,
    ) -> Option<Ordering> {
        match (a, b) {
            (Bound::Unbounded, Bound::Unbounded) => Some(Ordering::Equal),
            (Bound::Unbounded, _) => Some(role.permissive_side()),
            (_, Bound::Unbounded) => Some(mirrored(role.permissive_side())),
            _ => match values {
                Some(Ordering::Equal) => Some(role.tie_break(a is Inclusive, b is Inclusive)),
                decided => decided,
            },
        }
    }

    /// True iff the endpoint has a limit.
    pub fn is_bounded(&self) -> (r: bool)
        ensures
            r == !(self is Unbounded),
    {
        match *self {
            Bound::Unbounded => false,
            _ => true,
        }
    }

    /// Settles the order of two endpoints in the role `role` from the
    /// comparison of their limit values.
    ///
    /// `values` is read only where both endpoints have a limit.
    pub fn settle(role: BoundType, a: &Bound<T>, b: &Bound<T>, values: Option<Ordering>) -> (r:
        Option<Ordering>)
        ensures
            r == Self::order_given(role, *a, *b, values),
    {
        match (a, b) {
            (Bound::Unbounded, Bound::Unbounded) => Some(Ordering::Equal),
            (Bound::Unbounded, _) => Some(role.more_permissive()),
            (_, Bound::Unbounded) => Some(role.less_permissive()),
            (Bound::Inclusive(_), Bound::Inclusive(_))
            | (Bound::Exclusive(_), Bound::Exclusive(_)) => values,
            (Bound::Inclusive(_), Bound::Exclusive(_)) => match values {
                Some(Ordering::Equal) => Some(role.more_permissive()),
                decided => decided,
            },
            (Bound::Exclusive(_), Bound::Inclusive(_)) => match values {
                Some(Ordering::Equal) => Some(role.less_permissive()),
                decided => decided,
            },
        }
    }
}

impl<T: PartialOrd> Bound<T> {
    /// How the limit values of `a` and `b` compare; `None` where either has
    /// no limit or the values are not comparable.
    pub open spec fn limits_order(a: Self, b: Self) -> Option<Ordering> {
        match (a.limit(), b.limit()) {
            (Some(x), Some(y)) => x.partial_cmp_spec(&y),
            _ => None,
        }
    }

    /// `item` lies on the inner side of this endpoint in the role `role`: at
    /// the limit, if the limit is inclusive, or beyond it, towards the inside
    /// of the interval. Without a limit every item does.
    pub open spec fn admits(self, role: BoundType, item: T) -> bool {
        match self {
            Bound::Inclusive(limit) => {
                ||| item.partial_cmp_spec(&limit) == Some(Ordering::Equal)
                ||| item.partial_cmp_spec(&limit) == Some(mirrored(role.permissive_side()))
            },
            Bound::Exclusive(limit) => item.partial_cmp_spec(&limit) == Some(
                mirrored(role.permissive_side()),
            ),
            Bound::Unbounded => true,
        }
    }

    /// The order of `a` and `b` as endpoints in the role `role`.
    pub open spec fn order(role: BoundType, a: Self, b: Self) -> Option<Ordering> {
        Self::order_given(role, a, b, Self::limits_order(a, b))
    }

    /// Compares two endpoints that play the same role.
    ///
    /// The limit values are compared once, with `T::partial_cmp`, and only
    /// where both endpoints have a limit. Whatever that comparison is, the
    /// result is what [`Bound::order_given`] makes of its outcome; where `T`
    /// keeps to its comparison specification, that is [`Bound::order`].
    pub fn compare_bounds(role: BoundType, a: &Bound<T>, b: &Bound<T>) -> (r: Option<Ordering>)
        ensures
            (a is Unbounded || b is Unbounded) ==> r == Self::order_given(role, *a, *b, None),
            !(a is Unbounded || b is Unbounded) ==> exists|values: Option<Ordering>|
                {
                    &&& #[trigger] call_ensures(
                        T::partial_cmp,
                        (&a.limit().unwrap(), &b.limit().unwrap()),
                        values,
                    )
                    &&& r == Self::order_given(role, *a, *b, values)
                },
            T::obeys_partial_cmp_spec() ==> r == Self::order(role, *a, *b),
    {
        match (a, b) {
            (Bound::Inclusive(x), Bound::Inclusive(y))
            | (Bound::Inclusive(x), Bound::Exclusive(y))
            | (Bound::Exclusive(x), Bound::Inclusive(y))
            | (Bound::Exclusive(x), Bound::Exclusive(y)) => {
                let values = x.partial_cmp(y);
                Self::settle(role, a, b, values)
            },
            _ => Self::settle(role, a, b, None),
        }
    }
}

impl<T: Clone> Bound<T> {
    /// `copy` is a possible clone of `self`: the same kind of endpoint, with a
    /// limit that `T::clone` may return for the limit of `self`.
    pub open spec fn cloned_to(self, copy: Self) -> bool {
        match (self, copy) {
            (Bound::Inclusive(v), Bound::Inclusive(w)) => cloned(v, w),
            (Bound::Exclusive(v), Bound::Exclusive(w)) => cloned(v, w),
            (Bound::Unbounded, Bound::Unbounded) => true,
            _ => false,
        }
    }
}

impl<T: Clone> Clone for Bound<T> {
    fn clone(&self) -> (r: Self)
        ensures
            self.cloned_to(r),
    {
        match self {
            Bound::Inclusive(v) => Bound::Inclusive(v.clone()),
            Bound::Exclusive(v) => Bound::Exclusive(v.clone()),
            Bound::Unbounded => Bound::Unbounded,
        }
    }
}

impl<T: PartialEq> PartialEq for Bound<T> {
    /// Endpoints are equal when they are of the same kind and, where they
    /// have one, their limits are equal: two endpoints of different kinds
    /// are never equal, two unbounded ones always, and two of the same kind
    /// with limits as `T::eq` says of the limits.
    fn eq(&self, other: &Self) -> (r: bool)
        ensures
            match (*self, *other) {
                (Bound::Inclusive(v), Bound::Inclusive(w)) => call_ensures(T::eq, (&v, &w), r),
                (Bound::Exclusive(v), Bound::Exclusive(w)) => call_ensures(T::eq, (&v, &w), r),
                (Bound::Unbounded, Bound::Unbounded) => r,
                _ => !r,
            },
    {
        match (self, other) {
            (Bound::Inclusive(v), Bound::Inclusive(w)) => *v == *w,
            (Bound::Exclusive(v), Bound::Exclusive(w)) => *v == *w,
            (Bound::Unbounded, Bound::Unbounded) => true,
            _ => false,
        }
    }
}

impl<T: PartialEq> vstd::std_specs::cmp::PartialEqSpecImpl for Bound<T> {
    open spec fn obeys_eq_spec() -> bool {
        T::obeys_eq_spec()
    }

    open spec fn eq_spec(&self, other: &Self) -> bool {
        match (*self, *other) {
            (Bound::Inclusive(v), Bound::Inclusive(w)) => v.eq_spec(&w),
            (Bound::Exclusive(v), Bound::Exclusive(w)) => v.eq_spec(&w),
            (Bound::Unbounded, Bound::Unbounded) => true,
            _ => false,
        }
    }
}

/// Equality of endpoints follows the kind first: an unbounded endpoint equals
/// an unbounded one, two inclusive or two exclusive endpoints are equal
/// exactly when their limits are, and endpoints of different kinds are never
/// equal, not even at equal limits.
pub proof fn lemma_equality<T: PartialEq>(v: T, w: T)
    ensures
        Bound::<T>::Unbounded.eq_spec(&Bound::Unbounded),
        Bound::Inclusive(v).eq_spec(&Bound::Inclusive(w)) == v.eq_spec(&w),
        Bound::Exclusive(v).eq_spec(&Bound::Exclusive(w)) == v.eq_spec(&w),
        !Bound::Inclusive(v).eq_spec(&Bound::Exclusive(w)),
        !Bound::Exclusive(v).eq_spec(&Bound::Inclusive(w)),
        !Bound::Inclusive(v).eq_spec(&Bound::Unbounded),
        !Bound::Exclusive(v).eq_spec(&Bound::Unbounded),
        !Bound::<T>::Unbounded.eq_spec(&Bound::Inclusive(w)),
        !Bound::<T>::Unbounded.eq_spec(&Bound::Exclusive(w)),
{
}

/// The order of lower endpoints at one limit `v` that compares equal to
/// itself: endpoints of the same kind tie, the unbounded endpoint comes
/// before both bounded ones, and the inclusive one before the exclusive one.
pub proof fn lemma_lower_order_at_one_limit<T: PartialOrd>(v: T)
    requires
        v.partial_cmp_spec(&v) == Some(Ordering::Equal),
    ensures
        Bound::<T>::order(BoundType::Lower, Bound::Unbounded, Bound::Unbounded) == Some(
            Ordering::Equal,
        ),
        Bound::order(BoundType::Lower, Bound::Inclusive(v), Bound::Inclusive(v)) == Some(
            Ordering::Equal,
        ),
        Bound::order(BoundType::Lower, Bound::Exclusive(v), Bound::Exclusive(v)) == Some(
            Ordering::Equal,
        ),
        Bound::order(BoundType::Lower, Bound::Unbounded, Bound::Inclusive(v)) == Some(
            Ordering::Less,
        ),
        Bound::order(BoundType::Lower, Bound::Unbounded, Bound::Exclusive(v)) == Some(
            Ordering::Less,
        ),
        Bound::order(BoundType::Lower, Bound::Inclusive(v), Bound::Unbounded) == Some(
            Ordering::Greater,
        ),
        Bound::order(BoundType::Lower, Bound::Exclusive(v), Bound::Unbounded) == Some(
            Ordering::Greater,
        ),
        Bound::order(BoundType::Lower, Bound::Inclusive(v), Bound::Exclusive(v)) == Some(
            Ordering::Less,
        ),
        Bound::order(BoundType::Lower, Bound::Exclusive(v), Bound::Inclusive(v)) == Some(
            Ordering::Greater,
        ),
{
}

/// The order of upper endpoints at one limit `v` that compares equal to
/// itself: endpoints of the same kind tie, the unbounded endpoint comes
/// after both bounded ones, and the inclusive one after the exclusive one.
pub proof fn lemma_upper_order_at_one_limit<T: PartialOrd>(v: T)
    requires
        v.partial_cmp_spec(&v) == Some(Ordering::Equal),
    ensures
        Bound::<T>::order(BoundType::Upper, Bound::Unbounded, Bound::Unbounded) == Some(
            Ordering::Equal,
        ),
        Bound::order(BoundType::Upper, Bound::Inclusive(v), Bound::Inclusive(v)) == Some(
            Ordering::Equal,
        ),
        Bound::order(BoundType::Upper, Bound::Exclusive(v), Bound::Exclusive(v)) == Some(
            Ordering::Equal,
        ),
        Bound::order(BoundType::Upper, Bound::Unbounded, Bound::Inclusive(v)) == Some(
            Ordering::Greater,
        ),
        Bound::order(BoundType::Upper, Bound::Unbounded, Bound::Exclusive(v)) == Some(
            Ordering::Greater,
        ),
        Bound::order(BoundType::Upper, Bound::Inclusive(v), Bound::Unbounded) == Some(
            Ordering::Less,
        ),
        Bound::order(BoundType::Upper, Bound::Exclusive(v), Bound::Unbounded) == Some(
            Ordering::Less,
        ),
        Bound::order(BoundType::Upper, Bound::Inclusive(v), Bound::Exclusive(v)) == Some(
            Ordering::Greater,
        ),
        Bound::order(BoundType::Upper, Bound::Exclusive(v), Bound::Inclusive(v)) == Some(
            Ordering::Less,
        ),
{
}

/// The two roles mirror each other wherever inclusivity or unboundedness
/// decides: if an endpoint is unbounded or the limits compare equal, the
/// order as upper endpoints is the order as lower endpoints with `Less` and
/// `Greater` exchanged. Wherever the limits themselves decide, or cannot be
/// compared, the role makes no difference.
pub proof fn lemma_roles_mirror<T: PartialOrd>(a: Bound<T>, b: Bound<T>)
    ensures
        (a is Unbounded || b is Unbounded || Bound::limits_order(a, b) == Some(Ordering::Equal))
            ==> {
            &&& Bound::order(BoundType::Lower, a, b) is Some
            &&& Bound::order(BoundType::Upper, a, b) == Some(
                mirrored(Bound::order(BoundType::Lower, a, b).unwrap()),
            )
        },
        !(a is Unbounded || b is Unbounded || Bound::limits_order(a, b) == Some(Ordering::Equal))
            ==> {
            &&& Bound::order(BoundType::Upper, a, b) == Bound::order(BoundType::Lower, a, b)
            &&& Bound::order(BoundType::Lower, a, b) == Bound::limits_order(a, b)
        },
{
}

/// An indeterminate order of two endpoints comes from their limits alone:
/// the endpoints are unordered exactly when both have a limit and the two
/// limits cannot be compared.
pub proof fn lemma_indeterminate_only_from_limits<T: PartialOrd>(
    role: BoundType,
    a: Bound<T>,
    b: Bound<T>,
)
    ensures
        Bound::order(role, a, b) is None <==> {
            &&& a.limit() is Some
            &&& b.limit() is Some
            &&& a.limit().unwrap().partial_cmp_spec(&b.limit().unwrap()) is None
        },
{
}

} // verus!
