//! Axis-aligned rectangles and pure arithmetic over them: area, perimeter,
//! and a strict containment predicate.
//!
//! Overflow policy: `area` and `perimeter` use failing (checked) arithmetic.
//! Whenever the exact mathematical result fits in `u64` they return it in
//! `Ok`; otherwise they return `Err(ShapeError::Overflow)`. `can_hold` only
//! compares and cannot fail.

use vstd::prelude::*;

verus! {

/// An axis-aligned rectangle. Either dimension may be zero: a zero-width
/// rectangle is valid and has zero area.
#[derive(Clone, Copy, Debug, PartialEq, Eq, Structural)]
pub struct Rectangle {
    pub width: u64,
    pub length: u64,
}

/// The one way rectangle arithmetic can fail: the exact result of a
/// computation does not fit in `u64`.
#[derive(Clone, Copy, Debug, PartialEq, Eq, Structural)]
pub enum ShapeError {
    Overflow,
}

/// The exact area of `r`, as an unbounded integer.
pub open spec fn spec_area(r: Rectangle) -> int {
    r.width * r.length
}

/// The exact perimeter of `r`, as an unbounded integer.
pub open spec fn spec_perimeter(r: Rectangle) -> int {
    2 * (r.width + r.length)
}

/// Strict containment: `a` can hold `b` iff `a` is strictly wider and
/// strictly longer than `b`.
pub open spec fn spec_can_hold(a: Rectangle, b: Rectangle) -> bool {
    a.width > b.width && a.length > b.length
}

impl Rectangle {
    /// Builds the rectangle with the given dimensions.
    pub fn new(width: u64, length: u64) -> (r: Rectangle)
        ensures
            r.width == width,
            r.length == length,
    {
        Rectangle { width, length }
    }

    /// The area `width * length`, or `Overflow` exactly when that product
    /// exceeds `u64::MAX`.
    pub fn area(&self) -> (r: Result<u64, ShapeError>)
        ensures
            spec_area(*self) <= u64::MAX ==> r == Ok::<u64, ShapeError>(spec_area(*self) as u64),
            spec_area(*self) > u64::MAX ==> r == Err::<u64, ShapeError>(ShapeError::Overflow),
    {
        match self.width.checked_mul(self.length) {
            Some(a) => Ok(a),
            None => Err(ShapeError::Overflow),
        }
    }

    /// The perimeter `2 * (width + length)`, or `Overflow` exactly when
    /// that sum exceeds `u64::MAX`.
    pub fn perimeter(&self) -> (r: Result<u64, ShapeError>)
        ensures
            spec_perimeter(*self) <= u64::MAX ==> r == Ok::<u64, ShapeError>(
                spec_perimeter(*self) as u64,
            ),
            spec_perimeter(*self) > u64::MAX ==> r == Err::<u64, ShapeError>(ShapeError::Overflow),
    {
        match self.width.checked_add(self.length) {
            Some(s) => match s.checked_mul(2) {
                Some(p) => Ok(p),
                None => Err(ShapeError::Overflow),
            },
            None => Err(ShapeError::Overflow),
        }
    }

    /// Whether `self` can hold `other`: true iff `self` is strictly wider
    /// and strictly longer. Equality in either dimension fails.
    pub fn can_hold(&self, other: &Rectangle) -> (r: bool)
        ensures
            r == spec_can_hold(*self, *other),
    {
        self.width > other.width && self.length > other.length
    }
}

/// Strict containment is irreflexive: no rectangle can hold itself, since
/// the comparison on each dimension is strict.
pub proof fn lemma_can_hold_irreflexive(r: Rectangle)
    ensures
        !spec_can_hold(r, r),
{
}

/// Strict containment is transitive: if `a` can hold `b` and `b` can hold
/// `c`, then `a` can hold `c`.
pub proof fn lemma_can_hold_transitive(a: Rectangle, b: Rectangle, c: Rectangle)
    requires
        spec_can_hold(a, b),
        spec_can_hold(b, c),
    ensures
        spec_can_hold(a, c),
{
}

} // verus!
