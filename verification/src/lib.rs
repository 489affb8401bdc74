//! Intervals over an ordered domain, with inclusive, exclusive and unbounded
//! endpoints.
//!
//! A [`Bound`] is one endpoint; a [`Range`] is a pair of them, or the empty
//! set. Two endpoints are compared in a role, as lower or as upper limits
//! ([`BoundType`]), and ranges are ordered by their lower and then their
//! upper endpoints.

pub mod bound;
pub mod convert;
pub mod notation;
pub mod range;

pub use bound::Bound;
pub use bound::BoundType;
pub use range::Interval;
pub use range::Range;
