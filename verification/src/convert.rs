//! Ranges from the native range literals.
//!
//! A pair of endpoints written with `..` becomes the range between them. For
//! the primitive integers the limits themselves can be written: the start of
//! a native range is an inclusive lower limit, its end an exclusive upper
//! limit, and a side left out is unbounded.

use crate::bound::Bound;
use crate::range::Interval;
use crate::range::Range;
use vstd::prelude::*;

verus! {

/// Declares `std::ops::RangeFrom` to the verifier, which reads its one public
/// field, `start`, from the definition in the standard library. Nothing is
/// claimed of it beyond that definition.
#[verifier::external_type_specification]
#[verifier::reject_recursive_types(Idx)]
pub struct ExRangeFrom<Idx>(std::ops::RangeFrom<Idx>);

/// Declares `std::ops::RangeTo` to the verifier, which reads its one public
/// field, `end`, from the definition in the standard library. Nothing is
/// claimed of it beyond that definition.
#[verifier::external_type_specification]
#[verifier::reject_recursive_types(Idx)]
pub struct ExRangeTo<Idx>(std::ops::RangeTo<Idx>);

/// Declares `std::ops::RangeFull` to the verifier: a unit struct, the value
/// of the literal `..`.
#[verifier::external_type_specification]
pub struct ExRangeFull(std::ops::RangeFull);

impl<T> From<std::ops::Range<Bound<T>>> for Range<T> {
    /// `lower..upper` is the range between the two endpoints.
    fn from(range: std::ops::Range<Bound<T>>) -> (r: Range<T>) {
        Range::new(range.start, range.end)
    }
}

impl<T> vstd::std_specs::convert::FromSpecImpl<std::ops::Range<Bound<T>>> for Range<T> {
    open spec fn obeys_from_spec() -> bool {
        true
    }

    open spec fn from_spec(range: std::ops::Range<Bound<T>>) -> Range<T> {
        Range::Inhabited(Interval { lower: range.start, upper: range.end })
    }
}

impl<T> From<std::ops::RangeFrom<Bound<T>>> for Range<T> {
    /// `lower..` is the range from the endpoint upwards, without an upper
    /// limit.
    fn from(range: std::ops::RangeFrom<Bound<T>>) -> (r: Range<T>) {
        Range::new(range.start, Bound::Unbounded)
    }
}

impl<T> vstd::std_specs::convert::FromSpecImpl<std::ops::RangeFrom<Bound<T>>> for Range<T> {
    open spec fn obeys_from_spec() -> bool {
        true
    }

    open spec fn from_spec(range: std::ops::RangeFrom<Bound<T>>) -> Range<T> {
        Range::Inhabited(Interval { lower: range.start, upper: Bound::Unbounded })
    }
}

impl<T> From<std::ops::RangeTo<Bound<T>>> for Range<T> {
    /// `..upper` is the range up to the endpoint, without a lower limit.
    fn from(range: std::ops::RangeTo<Bound<T>>) -> (r: Range<T>) {
        Range::new(Bound::Unbounded, range.end)
    }
}

impl<T> vstd::std_specs::convert::FromSpecImpl<std::ops::RangeTo<Bound<T>>> for Range<T> {
    open spec fn obeys_from_spec() -> bool {
        true
    }

    open spec fn from_spec(range: std::ops::RangeTo<Bound<T>>) -> Range<T> {
        Range::Inhabited(Interval { lower: Bound::Unbounded, upper: range.end })
    }
}

impl<T> From<std::ops::RangeFull> for Range<T> {
    /// `..` is the range without limits.
    fn from(_range: std::ops::RangeFull) -> (r: Range<T>) {
        Range::new(Bound::Unbounded, Bound::Unbounded)
    }
}

impl<T> vstd::std_specs::convert::FromSpecImpl<std::ops::RangeFull> for Range<T> {
    open spec fn obeys_from_spec() -> bool {
        true
    }

    open spec fn from_spec(_range: std::ops::RangeFull) -> Range<T> {
        Range::everything()
    }
}

impl From<std::ops::Range<usize>> for Range<usize> {
    fn from(range: std::ops::Range<usize>) -> (r: Range<usize>) {
        Range::new(Bound::Inclusive(range.start), Bound::Exclusive(range.end))
    }
}

impl vstd::std_specs::convert::FromSpecImpl<std::ops::Range<usize>> for Range<usize> {
    open spec fn obeys_from_spec() -> bool {
        true
    }

    open spec fn from_spec(range: std::ops::Range<usize>) -> Range<usize> {
        Range::half_open(range.start, range.end)
    }
}

impl From<std::ops::RangeFrom<usize>> for Range<usize> {
    fn from(range: std::ops::RangeFrom<usize>) -> (r: Range<usize>) {
        Range::new(Bound::Inclusive(range.start), Bound::Unbounded)
    }
}

impl vstd::std_specs::convert::FromSpecImpl<std::ops::RangeFrom<usize>> for Range<usize> {
    open spec fn obeys_from_spec() -> bool {
        true
    }

    open spec fn from_spec(range: std::ops::RangeFrom<usize>) -> Range<usize> {
        Range::at_least(range.start)
    }
}

impl From<std::ops::RangeTo<usize>> for Range<usize> {
    fn from(range: std::ops::RangeTo<usize>) -> (r: Range<usize>) {
        Range::new(Bound::Unbounded, Bound::Exclusive(range.end))
    }
}

impl vstd::std_specs::convert::FromSpecImpl<std::ops::RangeTo<usize>> for Range<usize> {
    open spec fn obeys_from_spec() -> bool {
        true
    }

    open spec fn from_spec(range: std::ops::RangeTo<usize>) -> Range<usize> {
        Range::below(range.end)
    }
}

impl From<std::ops::Range<u8>> for Range<u8> {
    fn from(range: std::ops::Range<u8>) -> (r: Range<u8>) {
        Range::new(Bound::Inclusive(range.start), Bound::Exclusive(range.end))
    }
}

impl vstd::std_specs::convert::FromSpecImpl<std::ops::Range<u8>> for Range<u8> {
    open spec fn obeys_from_spec() -> bool {
        true
    }

    open spec fn from_spec(range: std::ops::Range<u8>) -> Range<u8> {
        Range::half_open(range.start, range.end)
    }
}

impl From<std::ops::RangeFrom<u8>> for Range<u8> {
    fn from(range: std::ops::RangeFrom<u8>) -> (r: Range<u8>) {
        Range::new(Bound::Inclusive(range.start), Bound::Unbounded)
    }
}

impl vstd::std_specs::convert::FromSpecImpl<std::ops::RangeFrom<u8>> for Range<u8> {
    open spec fn obeys_from_spec() -> bool {
        true
    }

    open spec fn from_spec(range: std::ops::RangeFrom<u8>) -> Range<u8> {
        Range::at_least(range.start)
    }
}

impl From<std::ops::RangeTo<u8>> for Range<u8> {
    fn from(range: std::ops::RangeTo<u8>) -> (r: Range<u8>) {
        Range::new(Bound::Unbounded, Bound::Exclusive(range.end))
    }
}

impl vstd::std_specs::convert::FromSpecImpl<std::ops::RangeTo<u8>> for Range<u8> {
    open spec fn obeys_from_spec() -> bool {
        true
    }

    open spec fn from_spec(range: std::ops::RangeTo<u8>) -> Range<u8> {
        Range::below(range.end)
    }
}

impl From<std::ops::Range<u16>> for Range<u16> {
    fn from(range: std::ops::Range<u16>) -> (r: Range<u16>) {
        Range::new(Bound::Inclusive(range.start), Bound::Exclusive(range.end))
    }
}

impl vstd::std_specs::convert::FromSpecImpl<std::ops::Range<u16>> for Range<u16> {
    open spec fn obeys_from_spec() -> bool {
        true
    }

    open spec fn from_spec(range: std::ops::Range<u16>) -> Range<u16> {
        Range::half_open(range.start, range.end)
    }
}

impl From<std::ops::RangeFrom<u16>> for Range<u16> {
    fn from(range: std::ops::RangeFrom<u16>) -> (r: Range<u16>) {
        Range::new(Bound::Inclusive(range.start), Bound::Unbounded)
    }
}

impl vstd::std_specs::convert::FromSpecImpl<std::ops::RangeFrom<u16>> for Range<u16> {
    open spec fn obeys_from_spec() -> bool {
        true
    }

    open spec fn from_spec(range: std::ops::RangeFrom<u16>) -> Range<u16> {
        Range::at_least(range.start)
    }
}

impl From<std::ops::RangeTo<u16>> for Range<u16> {
    fn from(range: std::ops::RangeTo<u16>) -> (r: Range<u16>) {
        Range::new(Bound::Unbounded, Bound::Exclusive(range.end))
    }
}

impl vstd::std_specs::convert::FromSpecImpl<std::ops::RangeTo<u16>> for Range<u16> {
    open spec fn obeys_from_spec() -> bool {
        true
    }

    open spec fn from_spec(range: std::ops::RangeTo<u16>) -> Range<u16> {
        Range::below(range.end)
    }
}

impl From<std::ops::Range<u32>> for Range<u32> {
    fn from(range: std::ops::Range<u32>) -> (r: Range<u32>) {
        Range::new(Bound::Inclusive(range.start), Bound::Exclusive(range.end))
    }
}

impl vstd::std_specs::convert::FromSpecImpl<std::ops::Range<u32>> for Range<u32> {
    open spec fn obeys_from_spec() -> bool {
        true
    }

    open spec fn from_spec(range: std::ops::Range<u32>) -> Range<u32> {
        Range::half_open(range.start, range.end)
    }
}

impl From<std::ops::RangeFrom<u32>> for Range<u32> {
    fn from(range: std::ops::RangeFrom<u32>) -> (r: Range<u32>) {
        Range::new(Bound::Inclusive(range.start), Bound::Unbounded)
    }
}

impl vstd::std_specs::convert::FromSpecImpl<std::ops::RangeFrom<u32>> for Range<u32> {
    open spec fn obeys_from_spec() -> bool {
        true
    }

    open spec fn from_spec(range: std::ops::RangeFrom<u32>) -> Range<u32> {
        Range::at_least(range.start)
    }
}

impl From<std::ops::RangeTo<u32>> for Range<u32> {
    fn from(range: std::ops::RangeTo<u32>) -> (r: Range<u32>) {
        Range::new(Bound::Unbounded, Bound::Exclusive(range.end))
    }
}

impl vstd::std_specs::convert::FromSpecImpl<std::ops::RangeTo<u32>> for Range<u32> {
    open spec fn obeys_from_spec() -> bool {
        true
    }

    open spec fn from_spec(range: std::ops::RangeTo<u32>) -> Range<u32> {
        Range::below(range.end)
    }
}

impl From<std::ops::Range<u64>> for Range<u64> {
    fn from(range: std::ops::Range<u64>) -> (r: Range<u64>) {
        Range::new(Bound::Inclusive(range.start), Bound::Exclusive(range.end))
    }
}

impl vstd::std_specs::convert::FromSpecImpl<std::ops::Range<u64>> for Range<u64> {
    open spec fn obeys_from_spec() -> bool {
        true
    }

    open spec fn from_spec(range: std::ops::Range<u64>) -> Range<u64> {
        Range::half_open(range.start, range.end)
    }
}

impl From<std::ops::RangeFrom<u64>> for Range<u64> {
    fn from(range: std::ops::RangeFrom<u64>) -> (r: Range<u64>) {
        Range::new(Bound::Inclusive(range.start), Bound::Unbounded)
    }
}

impl vstd::std_specs::convert::FromSpecImpl<std::ops::RangeFrom<u64>> for Range<u64> {
    open spec fn obeys_from_spec() -> bool {
        true
    }

    open spec fn from_spec(range: std::ops::RangeFrom<u64>) -> Range<u64> {
        Range::at_least(range.start)
    }
}

impl From<std::ops::RangeTo<u64>> for Range<u64> {
    fn from(range: std::ops::RangeTo<u64>) -> (r: Range<u64>) {
        Range::new(Bound::Unbounded, Bound::Exclusive(range.end))
    }
}

impl vstd::std_specs::convert::FromSpecImpl<std::ops::RangeTo<u64>> for Range<u64> {
    open spec fn obeys_from_spec() -> bool {
        true
    }

    open spec fn from_spec(range: std::ops::RangeTo<u64>) -> Range<u64> {
        Range::below(range.end)
    }
}

impl From<std::ops::Range<isize>> for Range<isize> {
    fn from(range: std::ops::Range<isize>) -> (r: Range<isize>) {
        Range::new(Bound::Inclusive(range.start), Bound::Exclusive(range.end))
    }
}

impl vstd::std_specs::convert::FromSpecImpl<std::ops::Range<isize>> for Range<isize> {
    open spec fn obeys_from_spec() -> bool {
        true
    }

    open spec fn from_spec(range: std::ops::Range<isize>) -> Range<isize> {
        Range::half_open(range.start, range.end)
    }
}

impl From<std::ops::RangeFrom<isize>> for Range<isize> {
    fn from(range: std::ops::RangeFrom<isize>) -> (r: Range<isize>) {
        Range::new(Bound::Inclusive(range.start), Bound::Unbounded)
    }
}

impl vstd::std_specs::convert::FromSpecImpl<std::ops::RangeFrom<isize>> for Range<isize> {
    open spec fn obeys_from_spec() -> bool {
        true
    }

    open spec fn from_spec(range: std::ops::RangeFrom<isize>) -> Range<isize> {
        Range::at_least(range.start)
    }
}

impl From<std::ops::RangeTo<isize>> for Range<isize> {
    fn from(range: std::ops::RangeTo<isize>) -> (r: Range<isize>) {
        Range::new(Bound::Unbounded, Bound::Exclusive(range.end))
    }
}

impl vstd::std_specs::convert::FromSpecImpl<std::ops::RangeTo<isize>> for Range<isize> {
    open spec fn obeys_from_spec() -> bool {
        true
    }

    open spec fn from_spec(range: std::ops::RangeTo<isize>) -> Range<isize> {
        Range::below(range.end)
    }
}

impl From<std::ops::Range<i8>> for Range<i8> {
    fn from(range: std::ops::Range<i8>) -> (r: Range<i8>) {
        Range::new(Bound::Inclusive(range.start), Bound::Exclusive(range.end))
    }
}

impl vstd::std_specs::convert::FromSpecImpl<std::ops::Range<i8>> for Range<i8> {
    open spec fn obeys_from_spec() -> bool {
        true
    }

    open spec fn from_spec(range: std::ops::Range<i8>) -> Range<i8> {
        Range::half_open(range.start, range.end)
    }
}

impl From<std::ops::RangeFrom<i8>> for Range<i8> {
    fn from(range: std::ops::RangeFrom<i8>) -> (r: Range<i8>) {
        Range::new(Bound::Inclusive(range.start), Bound::Unbounded)
    }
}

impl vstd::std_specs::convert::FromSpecImpl<std::ops::RangeFrom<i8>> for Range<i8> {
    open spec fn obeys_from_spec() -> bool {
        true
    }

    open spec fn from_spec(range: std::ops::RangeFrom<i8>) -> Range<i8> {
        Range::at_least(range.start)
    }
}

impl From<std::ops::RangeTo<i8>> for Range<i8> {
    fn from(range: std::ops::RangeTo<i8>) -> (r: Range<i8>) {
        Range::new(Bound::Unbounded, Bound::Exclusive(range.end))
    }
}

impl vstd::std_specs::convert::FromSpecImpl<std::ops::RangeTo<i8>> for Range<i8> {
    open spec fn obeys_from_spec() -> bool {
        true
    }

    open spec fn from_spec(range: std::ops::RangeTo<i8>) -> Range<i8> {
        Range::below(range.end)
    }
}

impl From<std::ops::Range<i16>> for Range<i16> {
    fn from(range: std::ops::Range<i16>) -> (r: Range<i16>) {
        Range::new(Bound::Inclusive(range.start), Bound::Exclusive(range.end))
    }
}

impl vstd::std_specs::convert::FromSpecImpl<std::ops::Range<i16>> for Range<i16> {
    open spec fn obeys_from_spec() -> bool {
        true
    }

    open spec fn from_spec(range: std::ops::Range<i16>) -> Range<i16> {
        Range::half_open(range.start, range.end)
    }
}

impl From<std::ops::RangeFrom<i16>> for Range<i16> {
    fn from(range: std::ops::RangeFrom<i16>) -> (r: Range<i16>) {
        Range::new(Bound::Inclusive(range.start), Bound::Unbounded)
    }
}

impl vstd::std_specs::convert::FromSpecImpl<std::ops::RangeFrom<i16>> for Range<i16> {
    open spec fn obeys_from_spec() -> bool {
        true
    }

    open spec fn from_spec(range: std::ops::RangeFrom<i16>) -> Range<i16> {
        Range::at_least(range.start)
    }
}

impl From<std::ops::RangeTo<i16>> for Range<i16> {
    fn from(range: std::ops::RangeTo<i16>) -> (r: Range<i16>) {
        Range::new(Bound::Unbounded, Bound::Exclusive(range.end))
    }
}

impl vstd::std_specs::convert::FromSpecImpl<std::ops::RangeTo<i16>> for Range<i16> {
    open spec fn obeys_from_spec() -> bool {
        true
    }

    open spec fn from_spec(range: std::ops::RangeTo<i16>) -> Range<i16> {
        Range::below(range.end)
    }
}

impl From<std::ops::Range<i32>> for Range<i32> {
    fn from(range: std::ops::Range<i32>) -> (r: Range<i32>) {
        Range::new(Bound::Inclusive(range.start), Bound::Exclusive(range.end))
    }
}

impl vstd::std_specs::convert::FromSpecImpl<std::ops::Range<i32>> for Range<i32> {
    open spec fn obeys_from_spec() -> bool {
        true
    }

    open spec fn from_spec(range: std::ops::Range<i32>) -> Range<i32> {
        Range::half_open(range.start, range.end)
    }
}

impl From<std::ops::RangeFrom<i32>> for Range<i32> {
    fn from(range: std::ops::RangeFrom<i32>) -> (r: Range<i32>) {
        Range::new(Bound::Inclusive(range.start), Bound::Unbounded)
    }
}

impl vstd::std_specs::convert::FromSpecImpl<std::ops::RangeFrom<i32>> for Range<i32> {
    open spec fn obeys_from_spec() -> bool {
        true
    }

    open spec fn from_spec(range: std::ops::RangeFrom<i32>) -> Range<i32> {
        Range::at_least(range.start)
    }
}

impl From<std::ops::RangeTo<i32>> for Range<i32> {
    fn from(range: std::ops::RangeTo<i32>) -> (r: Range<i32>) {
        Range::new(Bound::Unbounded, Bound::Exclusive(range.end))
    }
}

impl vstd::std_specs::convert::FromSpecImpl<std::ops::RangeTo<i32>> for Range<i32> {
    open spec fn obeys_from_spec() -> bool {
        true
    }

    open spec fn from_spec(range: std::ops::RangeTo<i32>) -> Range<i32> {
        Range::below(range.end)
    }
}

impl From<std::ops::Range<i64>> for Range<i64> {
    fn from(range: std::ops::Range<i64>) -> (r: Range<i64>) {
        Range::new(Bound::Inclusive(range.start), Bound::Exclusive(range.end))
    }
}

impl vstd::std_specs::convert::FromSpecImpl<std::ops::Range<i64>> for Range<i64> {
    open spec fn obeys_from_spec() -> bool {
        true
    }

    open spec fn from_spec(range: std::ops::Range<i64>) -> Range<i64> {
        Range::half_open(range.start, range.end)
    }
}

impl From<std::ops::RangeFrom<i64>> for Range<i64> {
    fn from(range: std::ops::RangeFrom<i64>) -> (r: Range<i64>) {
        Range::new(Bound::Inclusive(range.start), Bound::Unbounded)
    }
}

impl vstd::std_specs::convert::FromSpecImpl<std::ops::RangeFrom<i64>> for Range<i64> {
    open spec fn obeys_from_spec() -> bool {
        true
    }

    open spec fn from_spec(range: std::ops::RangeFrom<i64>) -> Range<i64> {
        Range::at_least(range.start)
    }
}

impl From<std::ops::RangeTo<i64>> for Range<i64> {
    fn from(range: std::ops::RangeTo<i64>) -> (r: Range<i64>) {
        Range::new(Bound::Unbounded, Bound::Exclusive(range.end))
    }
}

impl vstd::std_specs::convert::FromSpecImpl<std::ops::RangeTo<i64>> for Range<i64> {
    open spec fn obeys_from_spec() -> bool {
        true
    }

    open spec fn from_spec(range: std::ops::RangeTo<i64>) -> Range<i64> {
        Range::below(range.end)
    }
}

} // verus!
