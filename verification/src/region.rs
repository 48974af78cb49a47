//! Regions of the window, made of rectangles, that need repainting.

use vstd::prelude::*;
use crate::geometry::{
    negate_vec, rect_default, rect_intersect, rect_is_empty, rect_moved, rect_overlap, rect_union,
    rect_union_of, translate_rect, vec_negated, zero_area,
};

verus! {

/// A region of the plane: the union of a list of rectangles.
///
/// Which rectangles have zero area, and the coordinates of unions and
/// intersections, are computed by `kurbo` in floating point; the contracts
/// below state how the list of rectangles changes, not those coordinates.
#[derive(Clone, Debug)]
pub struct Region {
    rects: Vec<kurbo::Rect>,
}

impl Region {
    /// The rectangles making up this region, in the order they were added.
    pub closed spec fn spec_rects(&self) -> Seq<kurbo::Rect> {
        self.rects@
    }

    /// The empty region.
    pub fn empty() -> (r: Region)
        ensures
            r.spec_rects() == Seq::<kurbo::Rect>::empty(),
            all_nonzero(r.spec_rects()),
    {
        Region { rects: Vec::new() }
    }

    /// The region covered by one rectangle: empty when the rectangle has
    /// zero area, since only rectangles with area are kept.
    pub fn from_rect(rect: kurbo::Rect) -> (r: Region)
        ensures
            r.spec_rects() == (if zero_area(rect) {
                Seq::<kurbo::Rect>::empty()
            } else {
                seq![rect]
            }),
            all_nonzero(r.spec_rects()),
    {
        let mut r = Region::empty();
        r.add_rect(rect);
        assert(Seq::<kurbo::Rect>::empty().push(rect) =~= seq![rect]);
        r
    }

    /// Returns the collection of rectangles making up this region.
    pub fn rects(&self) -> (r: &[kurbo::Rect])
        ensures
            r@ == self.spec_rects(),
    {
        self.rects.as_slice()
    }

    /// Adds a rectangle to this region, unless it has zero area.
    pub fn add_rect(&mut self, rect: kurbo::Rect)
        ensures
            final(self).spec_rects() == (if zero_area(rect) {
                old(self).spec_rects()
            } else {
                old(self).spec_rects().push(rect)
            }),
            all_nonzero(old(self).spec_rects()) ==> all_nonzero(final(self).spec_rects()),
    {
        if !rect_is_empty(&rect) {
            self.rects.push(rect);
        }
    }

    /// Replaces this region with a single rectangle (with nothing, if the
    /// rectangle has zero area).
    pub fn set_rect(&mut self, rect: kurbo::Rect)
        ensures
            final(self).spec_rects() == (if zero_area(rect) {
                Seq::<kurbo::Rect>::empty()
            } else {
                seq![rect]
            }),
            all_nonzero(final(self).spec_rects()),
    {
        self.clear();
        self.add_rect(rect);
        assert(Seq::<kurbo::Rect>::empty().push(rect) =~= seq![rect]);
    }

    /// Sets this region to the empty region.
    pub fn clear(&mut self)
        ensures
            final(self).spec_rects() == Seq::<kurbo::Rect>::empty(),
            all_nonzero(final(self).spec_rects()),
    {
        self.rects.clear();
    }

    /// Returns a rectangle containing this region: the union of its
    /// rectangles, taken from the first to the last, or the default
    /// rectangle when it is empty.
    pub fn bounding_box(&self) -> (r: kurbo::Rect)
        ensures
            self.spec_rects().len() > 0 ==> r == union_all(self.spec_rects()),
            self.spec_rects().len() == 0 ==> zero_area(r),
    {
        if self.rects.len() == 0 {
            rect_default()
        } else {
            let mut acc = self.rects[0];
            let mut i: usize = 1;
            assert(self.rects@.take(1) =~= seq![self.rects@[0]]);
            while i < self.rects.len()
                invariant
                    1 <= i <= self.rects@.len(),
                    acc == union_all(self.rects@.take(i as int)),
                decreases self.rects@.len() - i,
            {
                assert(self.rects@.take(i + 1 as int).drop_last() =~= self.rects@.take(i as int));
                acc = rect_union(&acc, self.rects[i]);
                i = i + 1;
            }
            assert(self.rects@.take(i as int) =~= self.rects@);
            acc
        }
    }

    /// Returns `true` if this region has a non-empty intersection with the
    /// given rectangle: when one of its rectangles overlaps it with nonzero
    /// area.
    pub fn intersects(&self, rect: kurbo::Rect) -> (r: bool)
        ensures
            r == exists|i: int| 0 <= i < self.spec_rects().len() && !zero_area(
                #[trigger] rect_overlap(self.spec_rects()[i], rect),
            ),
    {
        let mut i: usize = 0;
        while i < self.rects.len()
            invariant
                i <= self.rects@.len(),
                forall|j: int| 0 <= j < i ==> zero_area(#[trigger] rect_overlap(self.rects@[j], rect)),
            decreases self.rects@.len() - i,
        {
            let overlap = rect_intersect(&self.rects[i], rect);
            if !rect_is_empty(&overlap) {
                assert(!zero_area(rect_overlap(self.spec_rects()[i as int], rect)));
                return true;
            }
            i = i + 1;
        }
        false
    }

    /// Returns `true` if this region is empty.
    pub fn is_empty(&self) -> (r: bool)
        ensures
            r == (self.spec_rects().len() == 0),
    {
        // Note that we only ever add non-empty rects to self.rects.
        self.rects.len() == 0
    }

    /// Modifies this region by including everything in the other region.
    pub fn union_with(&mut self, other: &Region)
        ensures
            final(self).spec_rects() == old(self).spec_rects() + other.spec_rects(),
            all_nonzero(old(self).spec_rects()) && all_nonzero(other.spec_rects()) ==> all_nonzero(
                final(self).spec_rects(),
            ),
    {
        let mut i: usize = 0;
        let ghost start = self.rects@;
        while i < other.rects.len()
            invariant
                i <= other.rects@.len(),
                self.rects@ == start + other.rects@.subrange(0, i as int),
            decreases other.rects@.len() - i,
        {
            self.rects.push(other.rects[i]);
            i = i + 1;
            assert(self.rects@ =~= start + other.rects@.subrange(0, i as int));
        }
        assert(other.rects@.subrange(0, other.rects@.len() as int) =~= other.rects@);
    }

    /// Moves every rectangle of this region by `v`.
    pub fn translate(&mut self, v: kurbo::Vec2)
        ensures
            final(self).spec_rects() == old(self).spec_rects().map_values(|r: kurbo::Rect| rect_moved(r, v)),
    {
        let mut i: usize = 0;
        while i < self.rects.len()
            invariant
                i <= self.rects@.len(),
                self.rects@.len() == old(self).rects@.len(),
                forall|j: int| 0 <= j < i ==> self.rects@[j] == rect_moved(#[trigger] old(self).rects@[j], v),
                forall|j: int| i <= j < self.rects@.len() ==> self.rects@[j] == old(self).rects@[j],
            decreases self.rects@.len() - i,
        {
            let moved = translate_rect(self.rects[i], v);
            self.rects.set(i, moved);
            i = i + 1;
        }
        assert(self.rects@ =~= old(self).rects@.map_values(|r: kurbo::Rect| rect_moved(r, v)));
    }
}

/// Whether no rectangle of `s` has zero area.
pub open spec fn all_nonzero(s: Seq<kurbo::Rect>) -> bool {
    forall|i: int| 0 <= i < s.len() ==> !zero_area(#[trigger] s[i])
}

/// The union of the rectangles of `s`, taken from the first to the last.
pub open spec fn union_all(s: Seq<kurbo::Rect>) -> kurbo::Rect
    decreases s.len(),
{
    if s.len() <= 1 {
        s[0]
    } else {
        rect_union_of(union_all(s.drop_last()), s.last())
    }
}

impl std::ops::AddAssign<kurbo::Vec2> for Region {
    /// Moves every rectangle of the region by `rhs`.
    fn add_assign(&mut self, rhs: kurbo::Vec2)
        ensures
            final(self).spec_rects() == old(self).spec_rects().map_values(|r: kurbo::Rect| rect_moved(r, rhs)),
    {
        self.translate(rhs);
    }
}

impl std::ops::SubAssign<kurbo::Vec2> for Region {
    /// Moves every rectangle of the region by `-rhs`.
    fn sub_assign(&mut self, rhs: kurbo::Vec2)
        ensures
            final(self).spec_rects() == old(self).spec_rects().map_values(
                |r: kurbo::Rect| rect_moved(r, vec_negated(rhs)),
            ),
    {
        self.translate(negate_vec(rhs));
    }
}

impl From<kurbo::Rect> for Region {
    /// The region covered by one rectangle (empty when it has zero area).
    fn from(rect: kurbo::Rect) -> (r: Region)
        ensures
            r.spec_rects() == (if zero_area(rect) {
                Seq::<kurbo::Rect>::empty()
            } else {
                seq![rect]
            }),
            all_nonzero(r.spec_rects()),
    {
        Region::from_rect(rect)
    }
}

impl vstd::std_specs::convert::FromSpecImpl<kurbo::Rect> for Region {
    /// Regions with the same rectangles are told apart only by their
    /// rectangles, which `from`'s own contract states.
    open spec fn obeys_from_spec() -> bool {
        false
    }

    open spec fn from_spec(v: kurbo::Rect) -> Region {
        choose|r: Region| r.spec_rects() == (if zero_area(v) {
            Seq::<kurbo::Rect>::empty()
        } else {
            seq![v]
        })
    }
}

/// The bounding box grows rectangle by rectangle: the box of a single
/// rectangle is that rectangle, and adding a rectangle to a non-empty region
/// makes its box the union of the old box with the new rectangle, so every
/// rectangle of the region is taken into the box.
pub proof fn lemma_bounding_box_grows(r0: Region, r1: Region, x: kurbo::Rect)
    requires
        r1.spec_rects() == r0.spec_rects().push(x),
    ensures
        r0.spec_rects().len() == 0 ==> union_all(r1.spec_rects()) == x,
        r0.spec_rects().len() > 0 ==> union_all(r1.spec_rects()) == rect_union_of(union_all(r0.spec_rects()), x),
{
    assert(r1.spec_rects().drop_last() =~= r0.spec_rects());
}

} // verus!
