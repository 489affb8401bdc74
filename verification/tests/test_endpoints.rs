use rustyspans::Bound;
use rustyspans::Bound::{Exclusive, Inclusive, Unbounded};
use rustyspans::BoundType;
use rustyspans::BoundType::{Lower, Upper};
use std::cmp::Ordering;

#[test]
fn bound_is_bounded_tells_limits_from_infinity() {
    assert!(Inclusive(3).is_bounded());
    assert!(Exclusive(3).is_bounded());
    assert!(!Unbounded::<i32>.is_bounded());
}

#[test]
fn role_names_the_permissive_side() {
    assert_eq!(Ordering::Less, Lower.more_permissive());
    assert_eq!(Ordering::Greater, Lower.less_permissive());
    assert_eq!(Ordering::Greater, Upper.more_permissive());
    assert_eq!(Ordering::Less, Upper.less_permissive());
}

#[test]
fn role_is_a_plain_tag() {
    assert_eq!(Lower, Lower);
    assert_ne!(Lower, Upper);
    let copy = Upper;
    assert_eq!(copy, Upper);
}

#[test]
fn unequal_limits_decide_whatever_the_kind_and_role() {
    let kinds: [(Bound<i32>, Bound<i32>); 4] = [
        (Inclusive(1), Inclusive(2)),
        (Inclusive(1), Exclusive(2)),
        (Exclusive(1), Inclusive(2)),
        (Exclusive(1), Exclusive(2)),
    ];
    for (small, large) in kinds.iter() {
        for role in [Lower, Upper] {
            assert_eq!(Some(Ordering::Less), Bound::compare_bounds(role, small, large));
            assert_eq!(Some(Ordering::Greater), Bound::compare_bounds(role, large, small));
        }
    }
}

#[test]
fn incomparable_limits_leave_the_order_open() {
    let nan = f64::NAN;
    for role in [Lower, Upper] {
        assert_eq!(None, Bound::compare_bounds(role, &Inclusive(nan), &Inclusive(1.0)));
        assert_eq!(None, Bound::compare_bounds(role, &Inclusive(1.0), &Exclusive(nan)));
        assert_eq!(None, Bound::compare_bounds(role, &Exclusive(nan), &Exclusive(nan)));
    }
}

#[test]
fn an_unbounded_side_needs_no_comparable_limit() {
    let nan = f64::NAN;
    assert_eq!(Some(Ordering::Less), Bound::compare_bounds(Lower, &Unbounded, &Inclusive(nan)));
    assert_eq!(Some(Ordering::Greater), Bound::compare_bounds(Lower, &Exclusive(nan), &Unbounded));
    assert_eq!(Some(Ordering::Greater), Bound::compare_bounds(Upper, &Unbounded, &Inclusive(nan)));
    assert_eq!(Some(Ordering::Less), Bound::compare_bounds(Upper, &Exclusive(nan), &Unbounded));
    assert_eq!(Some(Ordering::Equal), Bound::<f64>::compare_bounds(Upper, &Unbounded, &Unbounded));
}

#[test]
fn settle_breaks_ties_by_inclusivity() {
    let tie = Some(Ordering::Equal);
    let inc: Bound<u8> = Inclusive(7);
    let exc: Bound<u8> = Exclusive(7);
    assert_eq!(Some(Ordering::Equal), Bound::settle(Lower, &inc, &inc, tie));
    assert_eq!(Some(Ordering::Equal), Bound::settle(Upper, &exc, &exc, tie));
    assert_eq!(Some(Ordering::Less), Bound::settle(Lower, &inc, &exc, tie));
    assert_eq!(Some(Ordering::Greater), Bound::settle(Lower, &exc, &inc, tie));
    assert_eq!(Some(Ordering::Greater), Bound::settle(Upper, &inc, &exc, tie));
    assert_eq!(Some(Ordering::Less), Bound::settle(Upper, &exc, &inc, tie));
}

#[test]
fn settle_passes_on_what_the_limits_decided() {
    let inc: Bound<u8> = Inclusive(7);
    let exc: Bound<u8> = Exclusive(9);
    for role in [Lower, Upper] {
        assert_eq!(Some(Ordering::Less), Bound::settle(role, &inc, &exc, Some(Ordering::Less)));
        assert_eq!(
            Some(Ordering::Greater),
            Bound::settle(role, &exc, &inc, Some(Ordering::Greater))
        );
        assert_eq!(None, Bound::settle(role, &inc, &exc, None));
        assert_eq!(None, Bound::settle(role, &inc, &inc, None));
    }
}

#[test]
fn settle_ignores_the_limits_beside_an_unbounded_side() {
    let inc: Bound<u8> = Inclusive(7);
    let open: Bound<u8> = Unbounded;
    for values in [None, Some(Ordering::Less), Some(Ordering::Equal), Some(Ordering::Greater)] {
        assert_eq!(Some(Ordering::Equal), Bound::settle(Lower, &open, &open, values));
        assert_eq!(Some(Ordering::Less), Bound::settle(Lower, &open, &inc, values));
        assert_eq!(Some(Ordering::Greater), Bound::settle(Lower, &inc, &open, values));
        assert_eq!(Some(Ordering::Greater), Bound::settle(Upper, &open, &inc, values));
        assert_eq!(Some(Ordering::Less), Bound::settle(Upper, &inc, &open, values));
    }
}

#[test]
fn equal_kinds_are_equal_exactly_at_equal_limits() {
    assert_eq!(Inclusive(4), Inclusive(4));
    assert_ne!(Inclusive(4), Inclusive(5));
    assert_eq!(Exclusive(4), Exclusive(4));
    assert_ne!(Exclusive(4), Exclusive(5));
    assert_ne!(Inclusive(f64::NAN), Inclusive(f64::NAN));
}

#[test]
fn a_cloned_bound_is_the_same_bound() {
    let inc = Inclusive(String::from("m"));
    assert_eq!(inc, inc.clone());
    let exc = Exclusive(String::from("m"));
    assert_eq!(exc, exc.clone());
    assert_ne!(inc.clone(), exc.clone());
    assert_eq!(Unbounded::<String>, Unbounded::<String>.clone());
}

#[test]
fn bounds_print_for_debugging() {
    assert_eq!("Inclusive(1)", format!("{:?}", Inclusive(1)));
    assert_eq!("Unbounded", format!("{:?}", Unbounded::<i32>));
    assert_eq!("Lower", format!("{:?}", BoundType::Lower));
}
