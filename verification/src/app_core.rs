//! The retained-mode application core: ids for the views of the arena.

use vstd::prelude::*;

verus! {

/// Identifies a view in the application's arena.
#[derive(Clone, Copy, Debug, PartialEq, Eq, Structural, PartialOrd, Ord, Hash)]
pub struct ViewId(pub usize);

/// The id bookkeeping of an application: every id it hands out is fresh.
///
/// The arena of views and their layouts, which this crate does not hold, are
/// keyed by the ids it hands out.
pub struct Context {
    last_id: usize,
}

impl Context {
    /// The number of ids handed out so far; they are `1..=issued()`.
    pub closed spec fn issued(&self) -> nat {
        self.last_id as nat
    }

    /// Whether `id` has been handed out by this context.
    pub open spec fn has_issued(&self, id: ViewId) -> bool {
        1 <= id.0 <= self.issued()
    }

    /// A context that has handed out no id yet.
    pub fn new() -> (r: Self)
        ensures
            r.issued() == 0,
    {
        Context { last_id: 0 }
    }

    /// Hands out a fresh id: one more than the last one.
    pub fn new_id(&mut self) -> (r: ViewId)
        requires
            old(self).issued() < usize::MAX,
        ensures
            r.0 == old(self).issued() + 1,
            final(self).issued() == old(self).issued() + 1,
            final(self).has_issued(r),
            !old(self).has_issued(r),
            forall|id: ViewId| old(self).has_issued(id) ==> final(self).has_issued(id) && id != r,
    {
        self.last_id = self.last_id + 1;
        ViewId(self.last_id)
    }
}

/// Events the application hands to its views.
pub enum Event {
    /// being called every frame
    Update,
}

/// The direction in which a stack lays out its views.
#[derive(Clone, Copy, Debug, PartialEq, Eq, Structural)]
pub enum StackDirection {
    Vertical,
    Horizontal,
}

} // verus!
