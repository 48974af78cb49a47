//! The geometry types of `kurbo` that the toolkit carries through its logic.
//!
//! Their coordinates are floating point, which this crate does not reason
//! about: values of these types are opaque here and are only handed on.

use vstd::prelude::*;

verus! {

/// A 2D point (`kurbo::Point`), carried through opaquely.
#[verifier::external_type_specification]
#[verifier::external_body]
pub struct ExPoint(kurbo::Point);

/// A 2D vector (`kurbo::Vec2`), carried through opaquely.
#[verifier::external_type_specification]
#[verifier::external_body]
pub struct ExVec2(kurbo::Vec2);

/// A 2D size (`kurbo::Size`), carried through opaquely.
#[verifier::external_type_specification]
#[verifier::external_body]
pub struct ExSize(kurbo::Size);

/// An axis-aligned rectangle (`kurbo::Rect`), carried through opaquely.
#[verifier::external_type_specification]
#[verifier::external_body]
pub struct ExRect(kurbo::Rect);

/// `kurbo::Point` derives `Clone` together with `Copy`, so its `clone` returns
/// a copy of the value.
pub assume_specification[ <kurbo::Point as Clone>::clone ](v: &kurbo::Point) -> (r: kurbo::Point)
    ensures
        r == *v,
;

/// `kurbo::Vec2` derives `Clone` together with `Copy`, so its `clone` returns
/// a copy of the value.
pub assume_specification[ <kurbo::Vec2 as Clone>::clone ](v: &kurbo::Vec2) -> (r: kurbo::Vec2)
    ensures
        r == *v,
;

/// What `kurbo::Point + kurbo::Vec2` gives: the point moved by the vector.
pub uninterp spec fn point_moved(p: kurbo::Point, v: kurbo::Vec2) -> kurbo::Point;

/// What `kurbo::Rect + kurbo::Vec2` gives: the rectangle moved by the vector.
pub uninterp spec fn rect_moved(r: kurbo::Rect, v: kurbo::Vec2) -> kurbo::Rect;

/// What `-kurbo::Vec2` gives: the opposite vector.
pub uninterp spec fn vec_negated(v: kurbo::Vec2) -> kurbo::Vec2;

/// What `kurbo::Rect::is_zero_area` answers: whether the rectangle's area
/// is zero.
pub uninterp spec fn zero_area(r: kurbo::Rect) -> bool;

/// What `kurbo::Rect::union` gives: the smallest rectangle holding both.
pub uninterp spec fn rect_union_of(a: kurbo::Rect, b: kurbo::Rect) -> kurbo::Rect;

/// What `kurbo::Rect::intersect` gives: the overlap of both rectangles.
pub uninterp spec fn rect_overlap(a: kurbo::Rect, b: kurbo::Rect) -> kurbo::Rect;

/// What `kurbo::Rect::with_origin` gives for the point `offset` reaches from
/// the origin: the rectangle `Rect::from_origin_size` makes there with the
/// rectangle's width and height, its corners put in order.
pub uninterp spec fn rect_placed_at(r: kurbo::Rect, offset: kurbo::Vec2) -> kurbo::Rect;

/// Calls `kurbo::Point + kurbo::Vec2`, which adds the coordinates. The sum is
/// computed in floating point, so the result is only named.
#[verifier::external_body]
pub(crate) fn translate_point(p: kurbo::Point, v: kurbo::Vec2) -> (r: kurbo::Point)
    ensures
        r == point_moved(p, v),
{
    p + v
}

/// Calls `kurbo::Rect + kurbo::Vec2`, which adds the vector to both corners.
/// The coordinates are floating point, so the result is only named.
#[verifier::external_body]
pub(crate) fn translate_rect(r: kurbo::Rect, v: kurbo::Vec2) -> (out: kurbo::Rect)
    ensures
        out == rect_moved(r, v),
{
    r + v
}

/// Calls `-kurbo::Vec2`, which negates both coordinates. The result is only
/// named.
#[verifier::external_body]
pub(crate) fn negate_vec(v: kurbo::Vec2) -> (r: kurbo::Vec2)
    ensures
        r == vec_negated(v),
{
    -v
}

/// Calls `kurbo::Rect::is_zero_area` (whether width times height is zero).
/// The area is computed in floating point, so the answer is only named.
#[verifier::external_body]
pub(crate) fn rect_is_empty(r: &kurbo::Rect) -> (b: bool)
    ensures
        b == zero_area(*r),
{
    r.is_zero_area()
}

/// Calls `kurbo::Rect::union` (the smallest rectangle holding both). The
/// coordinates are floating point, so the result is only named.
#[verifier::external_body]
pub(crate) fn rect_union(a: &kurbo::Rect, b: kurbo::Rect) -> (r: kurbo::Rect)
    ensures
        r == rect_union_of(*a, b),
{
    a.union(b)
}

/// Calls `kurbo::Rect::intersect` (the overlap of both rectangles). The
/// coordinates are floating point, so the result is only named.
#[verifier::external_body]
pub(crate) fn rect_intersect(a: &kurbo::Rect, b: kurbo::Rect) -> (r: kurbo::Rect)
    ensures
        r == rect_overlap(*a, b),
{
    a.intersect(b)
}

/// Calls `kurbo::Rect::with_origin` with the point `offset` reaches from
/// the origin (the rectangle of the same width and height there, its
/// corners put in order). The coordinates are floating point, so the result
/// is only named.
#[verifier::external_body]
pub(crate) fn rect_with_origin(r: kurbo::Rect, offset: kurbo::Vec2) -> (out: kurbo::Rect)
    ensures
        out == rect_placed_at(r, offset),
{
    r.with_origin(offset.to_point())
}

/// Calls `kurbo::Rect::default()`, whose coordinates are all zero (the
/// derived default), so its area is zero; its coordinates are floating
/// point and are not stated otherwise.
#[verifier::external_body]
pub(crate) fn rect_default() -> (r: kurbo::Rect)
    ensures
        zero_area(r),
{
    kurbo::Rect::default()
}

} // verus!
