//! The view modifiers of the toolkit, and the bookkeeping of tap gestures.
//!
//! Layout, drawing and hit testing of these views work on floating-point
//! geometry and stay with the host; this module holds what the views are
//! made of and the decisions that do not depend on coordinates.

use vstd::prelude::*;
use crate::view_id::ViewId;

verus! {

/// Struct for `canvas`
pub struct Canvas<F> {
    pub(crate) func: F,
}

impl<F> Canvas<F> {
    /// The drawing function.
    pub closed spec fn spec_func(&self) -> F {
        self.func
    }

    /// The drawing function.
    pub fn func(&self) -> (r: &F)
        ensures
            *r == self.spec_func(),
    {
        &self.func
    }
}

/// Canvas for drawing with a function of the context, the view's rectangle
/// and the drawer.
pub fn canvas<F>(f: F) -> (r: Canvas<F>)
    ensures
        r.spec_func() == f,
{
    Canvas { func: f }
}

/// Clips its child to its layout rectangle.
pub struct Clip<V> {
    pub(crate) child: V,
}

impl<V> Clip<V> {
    /// The clipped view.
    pub closed spec fn spec_child(&self) -> V {
        self.child
    }

    /// Clips `child`.
    pub fn new(child: V) -> (r: Self)
        ensures
            r.spec_child() == child,
    {
        Self { child }
    }

    /// The clipped view.
    pub fn child(&self) -> (r: &V)
        ensures
            *r == self.spec_child(),
    {
        &self.child
    }
}

/// A view that shows nothing and takes no space.
#[derive(Clone)]
pub struct EmptyView {}

/// Struct for the `geom` modifier.
pub struct Geom<V, F> {
    pub(crate) child: V,
    pub(crate) func: F,
}

impl<V, F> Geom<V, F> {
    /// The wrapped view.
    pub closed spec fn spec_child(&self) -> V {
        self.child
    }

    /// The function told the view's size and position.
    pub closed spec fn spec_func(&self) -> F {
        self.func
    }

    /// Reports the geometry of `child` to `f`.
    pub fn new(child: V, f: F) -> (r: Self)
        ensures
            r.spec_child() == child,
            r.spec_func() == f,
    {
        Self { child, func: f }
    }

    /// The wrapped view.
    pub fn child(&self) -> (r: &V)
        ensures
            *r == self.spec_child(),
    {
        &self.child
    }

    /// The function told the view's size and position.
    pub fn func(&self) -> (r: &F)
        ensures
            *r == self.spec_func(),
    {
        &self.func
    }
}

/// Struct for the `offset` modifier.
pub struct Offset<V> {
    pub(crate) child: V,
    pub(crate) offset: kurbo::Vec2,
}

impl<V> Offset<V> {
    /// The moved view.
    pub closed spec fn spec_child(&self) -> V {
        self.child
    }

    /// How far the view is moved.
    pub closed spec fn spec_offset(&self) -> kurbo::Vec2 {
        self.offset
    }

    /// Moves `child` by `offset`.
    pub fn new(child: V, offset: kurbo::Vec2) -> (r: Self)
        ensures
            r.spec_child() == child,
            r.spec_offset() == offset,
    {
        Self { child, offset }
    }

    /// The moved view.
    pub fn child(&self) -> (r: &V)
        ensures
            *r == self.spec_child(),
    {
        &self.child
    }

    /// How far the view is moved.
    pub fn offset(&self) -> (r: kurbo::Vec2)
        ensures
            r == self.spec_offset(),
    {
        self.offset
    }
}

/// Struct for the `size` modifier.
pub struct SizeView<V> {
    /// Child view tree.
    pub(crate) child: V,
    /// Size constraint.
    pub(crate) size: kurbo::Size,
}

impl<V> SizeView<V> {
    /// The constrained view.
    pub closed spec fn spec_child(&self) -> V {
        self.child
    }

    /// The size given to the view.
    pub closed spec fn spec_size(&self) -> kurbo::Size {
        self.size
    }

    /// Gives `child` the size `size`.
    pub fn new(child: V, size: kurbo::Size) -> (r: Self)
        ensures
            r.spec_child() == child,
            r.spec_size() == size,
    {
        Self { child, size }
    }

    /// The constrained view.
    pub fn child(&self) -> (r: &V)
        ensures
            *r == self.spec_child(),
    {
        &self.child
    }

    /// The size given to the view.
    pub fn size(&self) -> (r: kurbo::Size)
        ensures
            r == self.spec_size(),
    {
        self.size
    }
}

/// A flexible space in a stack.
#[derive(Clone)]
pub struct Spacer {}

/// Inserts a flexible space in a stack.
pub fn spacer() -> (r: Spacer)
    ensures
        r == (Spacer {}),
{
    Spacer {}
}

/// Asks for the default padding.
pub struct Auto;

/// A tap action that calls a function of the context, the tap position and
/// the pressed button.
pub struct TapFunc<F> {
    pub f: F,
}

/// A tap action that calls a function of the context.
pub struct TapAdapter<F> {
    pub f: F,
}

/// A tap action that produces a fixed action value.
pub struct TapActionAdapter<A> {
    pub action: A,
}

/// Struct for the `tap` gesture.
pub struct Tap<V, F> {
    /// Child view tree.
    pub(crate) child: V,
    /// Called when a tap occurs.
    pub(crate) func: F,
}

impl<V, F> Tap<V, F> {
    /// The tappable view.
    pub closed spec fn spec_child(&self) -> V {
        self.child
    }

    /// The action of the tap.
    pub closed spec fn spec_func(&self) -> F {
        self.func
    }

    /// Makes `v` tappable, with action `f`.
    pub fn new(v: V, f: F) -> (r: Self)
        ensures
            r.spec_child() == v,
            r.spec_func() == f,
    {
        Self { child: v, func: f }
    }

    /// The tappable view.
    pub fn child(&self) -> (r: &V)
        ensures
            *r == self.spec_child(),
    {
        &self.child
    }

    /// The action of the tap.
    pub fn func(&self) -> (r: &F)
        ensures
            *r == self.spec_func(),
    {
        &self.func
    }
}

/// The number of touches (or mouse pointers) tracked at once.
pub const MAX_TOUCHES: usize = 16;

/// Which view each touch (or mouse pointer) is interacting with.
pub struct Touches {
    touches: [ViewId; 16],
}

impl Touches {
    /// The view each touch belongs to; `ViewId::default()` for none.
    pub closed spec fn owners(&self) -> Seq<ViewId> {
        self.touches@
    }

    /// No touch belongs to a view.
    pub fn new() -> (r: Self)
        ensures
            r.owners().len() == MAX_TOUCHES,
            forall|i: int| 0 <= i < MAX_TOUCHES ==> r.owners()[i] == (ViewId { id: 0 }),
    {
        Touches { touches: [ViewId { id: 0 }; 16] }
    }

    /// The view touch `touch` belongs to.
    pub fn owner(&self, touch: usize) -> (r: ViewId)
        requires
            touch < MAX_TOUCHES,
        ensures
            r == self.owners()[touch as int],
    {
        self.touches[touch]
    }

    /// A touch began: the tappable view `vid` takes the touch when the touch
    /// began on it (`hit`); otherwise nothing changes.
    pub fn tap_begin(&mut self, touch: usize, vid: ViewId, hit: bool)
        requires
            touch < MAX_TOUCHES,
        ensures
            final(self).owners() == owners_after_begin(old(self).owners(), touch as int, vid, hit),
            !hit ==> final(self).owners() == old(self).owners(),
            hit ==> final(self).owners()[touch as int] == vid,
            final(self).owners().len() == old(self).owners().len(),
            forall|i: int| 0 <= i < old(self).owners().len() && i != touch ==> final(self).owners()[i]
                == old(self).owners()[i],
    {
        if hit {
            self.touches[touch] = vid;
        }
    }

    /// A touch ended: when it belongs to the tappable view `vid`, the view
    /// lets it go and the tap fires (the result is `true`); otherwise
    /// nothing changes.
    pub fn tap_end(&mut self, touch: usize, vid: ViewId) -> (fires: bool)
        requires
            touch < MAX_TOUCHES,
        ensures
            fires == tap_fires(old(self).owners(), touch as int, vid),
            final(self).owners() == owners_after_end(old(self).owners(), touch as int, vid),
            fires == (old(self).owners()[touch as int] == vid),
            fires ==> final(self).owners()[touch as int] == (ViewId { id: 0 }),
            !fires ==> final(self).owners() == old(self).owners(),
            final(self).owners().len() == old(self).owners().len(),
            forall|i: int| 0 <= i < old(self).owners().len() && i != touch ==> final(self).owners()[i]
                == old(self).owners()[i],
    {
        if self.touches[touch] == vid {
            self.touches[touch] = ViewId { id: 0 };
            true
        } else {
            false
        }
    }
}

/// The owners of the touches after touch `touch` began on (`hit`) or off the
/// tappable view `vid`.
pub open spec fn owners_after_begin(owners: Seq<ViewId>, touch: int, vid: ViewId, hit: bool) -> Seq<ViewId> {
    if hit {
        owners.update(touch, vid)
    } else {
        owners
    }
}

/// Whether the tap of view `vid` fires when touch `touch` ends: when the
/// view owns the touch.
pub open spec fn tap_fires(owners: Seq<ViewId>, touch: int, vid: ViewId) -> bool {
    owners[touch] == vid
}

/// The owners of the touches after touch `touch` ended for view `vid`: a
/// firing tap frees the touch.
pub open spec fn owners_after_end(owners: Seq<ViewId>, touch: int, vid: ViewId) -> Seq<ViewId> {
    if tap_fires(owners, touch, vid) {
        owners.update(touch, ViewId { id: 0 })
    } else {
        owners
    }
}

/// A touch that began off a view changes no touch's owner, and one that
/// began on a view gives that touch to it alone; a touch ends with a firing
/// tap exactly for its owner, which then lets it go.
pub proof fn lemma_touch_ownership(owners: Seq<ViewId>, touch: int, vid: ViewId, other: ViewId)
    requires
        0 <= touch < owners.len(),
    ensures
        owners_after_begin(owners, touch, vid, false) == owners,
        owners_after_begin(owners, touch, vid, true)[touch] == vid,
        owners_after_begin(owners, touch, vid, true).len() == owners.len(),
        forall|i: int| 0 <= i < owners.len() && i != touch ==> #[trigger] owners_after_begin(owners, touch, vid, true)[i]
            == owners[i],
        tap_fires(owners, touch, vid) <==> owners[touch] == vid,
        tap_fires(owners, touch, vid) ==> owners_after_end(owners, touch, vid)[touch] == (ViewId { id: 0 }),
        !tap_fires(owners, touch, vid) ==> owners_after_end(owners, touch, vid) == owners,
        tap_fires(owners_after_begin(owners_after_begin(owners, touch, vid, true), touch, other, false), touch, vid),
{
}

/// A tap that began on a view fires once when the touch ends on that view,
/// and then frees the touch: a second end does not fire again. A view that
/// did not take the touch does not fire, and leaves the touch to its owner.
pub proof fn lemma_tap_fires_after_begin(owners: Seq<ViewId>, touch: int, vid: ViewId, other: ViewId)
    requires
        owners.len() == MAX_TOUCHES,
        0 <= touch < MAX_TOUCHES,
        vid != other,
        vid != (ViewId { id: 0 }),
    ensures
        ({
            let began = owners_after_begin(owners, touch, vid, true);
            &&& tap_fires(began, touch, vid)
            &&& !tap_fires(owners_after_end(began, touch, vid), touch, vid)
            &&& owners_after_end(began, touch, vid)[touch] == (ViewId { id: 0 })
            &&& !tap_fires(began, touch, other)
            &&& owners_after_end(began, touch, other) == began
        }),
        !tap_fires(owners_after_begin(owners, touch, vid, false), touch, vid) <==> owners[touch] != vid,
{
}

} // verus!
